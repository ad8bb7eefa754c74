use std::collections::HashSet;
use vstd::prelude::*;

use crate::bus::bus::{Bus, BusView};
use crate::console::Console;
use crate::cpu::cpu::{Privilege, Xlen};
use crate::cpu::cpu_instruction::Width;
use crate::cpu::trap::{Exception, Trap};
use crate::machine::Machine;

verus! {

broadcast use vstd::std_specs::hash::group_hash_axioms;

pub const PAGE_SIZE: u64 = 4096;

#[derive(Clone, Copy, Debug, PartialEq, Eq, Structural)]
pub enum AddressingMode {
    Bare,
    Sv32,
    Sv39,
    Sv48,
    Sv57,
    Sv64,
}

/// The fields of a page table entry.
#[derive(Clone, Copy, Debug, PartialEq, Eq, Structural)]
pub struct Pte {
    /// Physical page number.
    pub ppn: u64,
    /// The parts of the physical page number, lowest first.
    pub ppn0: u64,
    pub ppn1: u64,
    pub ppn2: u64,
    /// Reserved for supervisor software.
    pub rsw: u8,
    /// Dirty.
    pub d: u8,
    /// Accessed.
    pub a: u8,
    /// Global mapping.
    pub g: u8,
    /// Accessible to user mode.
    pub u: u8,
    /// Execute permission.
    pub x: u8,
    /// Write permission.
    pub w: u8,
    /// Read permission.
    pub r: u8,
    /// Valid.
    pub v: u8,
}

#[derive(Clone, Copy, Debug, PartialEq, Eq, Structural)]
pub enum MemoryAccessType {
    Fetch,
    Read,
    Write,
}

/// The page fault that a failed access of the given kind raises.
pub open spec fn spec_page_fault(access: MemoryAccessType) -> Exception {
    match access {
        MemoryAccessType::Fetch => Exception::InstructionPageFault,
        MemoryAccessType::Read => Exception::LoadPageFault,
        MemoryAccessType::Write => Exception::StorePageFault,
    }
}

#[verifier::when_used_as_spec(spec_page_fault)]
pub fn page_fault(access: MemoryAccessType) -> (e: Exception)
    ensures
        e == spec_page_fault(access),
{
    match access {
        MemoryAccessType::Fetch => Exception::InstructionPageFault,
        MemoryAccessType::Read => Exception::LoadPageFault,
        MemoryAccessType::Write => Exception::StorePageFault,
    }
}

/// The low XLEN bits of an address.
pub open spec fn spec_effective_address(xlen: Xlen, addr: u64) -> u64 {
    match xlen {
        Xlen::X32 => addr & 0xffff_ffff,
        Xlen::X64 => addr,
    }
}

#[verifier::when_used_as_spec(spec_effective_address)]
pub fn effective_address(xlen: Xlen, addr: u64) -> (e: u64)
    ensures
        e == spec_effective_address(xlen, addr),
{
    match xlen {
        Xlen::X32 => addr & 0xffff_ffff,
        Xlen::X64 => addr,
    }
}

/// The fields of the page table entry `pte`. Under Sv32 the page number has
/// 22 bits in parts of 10 and 12; otherwise it has 44 bits in parts of 9, 9
/// and 26.
pub open spec fn spec_parse_pte(mode: AddressingMode, pte: u64) -> Pte {
    Pte {
        ppn: match mode {
            AddressingMode::Sv32 => (pte >> 10) & 0x3f_ffff,
            _ => (pte >> 10) & 0xfff_ffff_ffff,
        },
        ppn0: match mode {
            AddressingMode::Sv32 => (pte >> 10) & 0x3ff,
            _ => (pte >> 10) & 0x1ff,
        },
        ppn1: match mode {
            AddressingMode::Sv32 => (pte >> 20) & 0xfff,
            _ => (pte >> 19) & 0x1ff,
        },
        ppn2: match mode {
            AddressingMode::Sv32 => 0,
            _ => (pte >> 28) & 0x3ff_ffff,
        },
        rsw: ((pte >> 8) & 0x3) as u8,
        d: ((pte >> 7) & 0x1) as u8,
        a: ((pte >> 6) & 0x1) as u8,
        g: ((pte >> 5) & 0x1) as u8,
        u: ((pte >> 4) & 0x1) as u8,
        x: ((pte >> 3) & 0x1) as u8,
        w: ((pte >> 2) & 0x1) as u8,
        r: ((pte >> 1) & 0x1) as u8,
        v: (pte & 0x1) as u8,
    }
}

#[verifier::when_used_as_spec(spec_parse_pte)]
pub fn parse_pte(mode: AddressingMode, pte: u64) -> (p: Pte)
    ensures
        p == spec_parse_pte(mode, pte),
{
    Pte {
        ppn: match mode {
            AddressingMode::Sv32 => (pte >> 10) & 0x3f_ffff,
            _ => (pte >> 10) & 0xfff_ffff_ffff,
        },
        ppn0: match mode {
            AddressingMode::Sv32 => (pte >> 10) & 0x3ff,
            _ => (pte >> 10) & 0x1ff,
        },
        ppn1: match mode {
            AddressingMode::Sv32 => (pte >> 20) & 0xfff,
            _ => (pte >> 19) & 0x1ff,
        },
        ppn2: match mode {
            AddressingMode::Sv32 => 0,
            _ => (pte >> 28) & 0x3ff_ffff,
        },
        rsw: ((pte >> 8) & 0x3) as u8,
        d: ((pte >> 7) & 0x1) as u8,
        a: ((pte >> 6) & 0x1) as u8,
        g: ((pte >> 5) & 0x1) as u8,
        u: ((pte >> 4) & 0x1) as u8,
        x: ((pte >> 3) & 0x1) as u8,
        w: ((pte >> 2) & 0x1) as u8,
        r: ((pte >> 1) & 0x1) as u8,
        v: (pte & 0x1) as u8,
    }
}

/// The part of the virtual page number that selects the entry at `level`:
/// 10 bits a level under Sv32, 9 bits otherwise.
pub open spec fn spec_vpn(mode: AddressingMode, v_addr: u64, level: u8) -> u64 {
    match mode {
        AddressingMode::Sv32 => if level == 0 {
            (v_addr >> 12) & 0x3ff
        } else {
            (v_addr >> 22) & 0x3ff
        },
        _ => if level == 0 {
            (v_addr >> 12) & 0x1ff
        } else if level == 1 {
            (v_addr >> 21) & 0x1ff
        } else {
            (v_addr >> 30) & 0x1ff
        },
    }
}

#[verifier::when_used_as_spec(spec_vpn)]
pub fn vpn(mode: AddressingMode, v_addr: u64, level: u8) -> (n: u64)
    ensures
        n == spec_vpn(mode, v_addr, level),
{
    match mode {
        AddressingMode::Sv32 => if level == 0 {
            (v_addr >> 12) & 0x3ff
        } else {
            (v_addr >> 22) & 0x3ff
        },
        _ => if level == 0 {
            (v_addr >> 12) & 0x1ff
        } else if level == 1 {
            (v_addr >> 21) & 0x1ff
        } else {
            (v_addr >> 30) & 0x1ff
        },
    }
}

/// The size in bytes of a page table entry.
pub open spec fn spec_pte_size(mode: AddressingMode) -> u64 {
    match mode {
        AddressingMode::Sv32 => 4,
        _ => 8,
    }
}

#[verifier::when_used_as_spec(spec_pte_size)]
pub fn pte_size(mode: AddressingMode) -> (n: u64)
    ensures
        n == spec_pte_size(mode),
{
    match mode {
        AddressingMode::Sv32 => 4,
        _ => 8,
    }
}

/// The address of the entry for `v_addr` in the table at page `parent_ppn`.
pub open spec fn spec_pte_address(mode: AddressingMode, parent_ppn: u64, v_addr: u64, level: u8) -> u64 {
    parent_ppn.wrapping_mul(PAGE_SIZE).wrapping_add(vpn(mode, v_addr, level).wrapping_mul(pte_size(mode)))
}

#[verifier::when_used_as_spec(spec_pte_address)]
pub fn pte_address(mode: AddressingMode, parent_ppn: u64, v_addr: u64, level: u8) -> (a: u64)
    ensures
        a == spec_pte_address(mode, parent_ppn, v_addr, level),
{
    parent_ppn.wrapping_mul(PAGE_SIZE).wrapping_add(vpn(mode, v_addr, level).wrapping_mul(pte_size(mode)))
}

/// Whether the entry is valid: V is set, and W is not set without R.
pub open spec fn spec_pte_valid(p: Pte) -> bool {
    !(p.v == 0 || (p.r == 0 && p.w == 1))
}

#[verifier::when_used_as_spec(spec_pte_valid)]
pub fn pte_valid(p: Pte) -> (b: bool)
    ensures
        b == spec_pte_valid(p),
{
    !(p.v == 0 || (p.r == 0 && p.w == 1))
}

/// Whether the entry points to a table of the next level: neither R nor X is set.
pub open spec fn spec_pte_is_pointer(p: Pte) -> bool {
    p.r == 0 && p.x == 0
}

#[verifier::when_used_as_spec(spec_pte_is_pointer)]
pub fn pte_is_pointer(p: Pte) -> (b: bool)
    ensures
        b == spec_pte_is_pointer(p),
{
    p.r == 0 && p.x == 0
}

/// Whether the leaf entry allows the access: a fetch needs X, a read R, a write W.
pub open spec fn spec_permitted(p: Pte, access: MemoryAccessType) -> bool {
    match access {
        MemoryAccessType::Fetch => p.x != 0,
        MemoryAccessType::Read => p.r != 0,
        MemoryAccessType::Write => p.w != 0,
    }
}

#[verifier::when_used_as_spec(spec_permitted)]
pub fn permitted(p: Pte, access: MemoryAccessType) -> (b: bool)
    ensures
        b == spec_permitted(p, access),
{
    match access {
        MemoryAccessType::Fetch => p.x != 0,
        MemoryAccessType::Read => p.r != 0,
        MemoryAccessType::Write => p.w != 0,
    }
}

/// Whether the access has to set A, or for a write D, in the entry.
pub open spec fn spec_needs_update(p: Pte, access: MemoryAccessType) -> bool {
    p.a == 0 || (access == MemoryAccessType::Write && p.d == 0)
}

#[verifier::when_used_as_spec(spec_needs_update)]
pub fn needs_update(p: Pte, access: MemoryAccessType) -> (b: bool)
    ensures
        b == spec_needs_update(p, access),
{
    p.a == 0 || (access == MemoryAccessType::Write && p.d == 0)
}

/// The entry with A set, and for a write D too.
pub open spec fn spec_updated_pte(pte: u64, access: MemoryAccessType) -> u64 {
    pte | 0x40 | (match access {
        MemoryAccessType::Write => 0x80u64,
        _ => 0u64,
    })
}

#[verifier::when_used_as_spec(spec_updated_pte)]
pub fn updated_pte(pte: u64, access: MemoryAccessType) -> (e: u64)
    ensures
        e == spec_updated_pte(pte, access),
{
    pte | 0x40 | (match access {
        MemoryAccessType::Write => 0x80u64,
        _ => 0u64,
    })
}

/// The physical address that the leaf entry `p`, found at `level`, gives
/// `v_addr`: the page number parts of the entry down to `level`, the parts of
/// the virtual page number below it, and the 12-bit offset. `None` for a
/// superpage whose page number parts below `level` are not zero.
pub open spec fn spec_leaf_address(mode: AddressingMode, p: Pte, v_addr: u64, level: u8) -> Option<u64> {
    let offset: u64 = v_addr & 0xfff;
    match mode {
        AddressingMode::Sv32 => if level == 0 {
            Some((p.ppn << 12u32) | offset)
        } else if level == 1 && p.ppn0 == 0 {
            Some((p.ppn1 << 22u32) | (vpn(mode, v_addr, 0) << 12u32) | offset)
        } else {
            None
        },
        _ => if level == 0 {
            Some((p.ppn << 12u32) | offset)
        } else if level == 1 && p.ppn0 == 0 {
            Some((p.ppn2 << 30u32) | (p.ppn1 << 21u32) | (vpn(mode, v_addr, 0) << 12u32) | offset)
        } else if level == 2 && p.ppn1 == 0 && p.ppn0 == 0 {
            Some(
                (p.ppn2 << 30u32) | (vpn(mode, v_addr, 1) << 21u32) | (vpn(mode, v_addr, 0) << 12u32)
                    | offset,
            )
        } else {
            None
        },
    }
}

#[verifier::when_used_as_spec(spec_leaf_address)]
pub fn leaf_address(mode: AddressingMode, p: Pte, v_addr: u64, level: u8) -> (a: Option<u64>)
    ensures
        a == spec_leaf_address(mode, p, v_addr, level),
{
    let offset: u64 = v_addr & 0xfff;
    match mode {
        AddressingMode::Sv32 => if level == 0 {
            Some((p.ppn << 12u32) | offset)
        } else if level == 1 && p.ppn0 == 0 {
            Some((p.ppn1 << 22u32) | (vpn(mode, v_addr, 0) << 12u32) | offset)
        } else {
            None
        },
        _ => if level == 0 {
            Some((p.ppn << 12u32) | offset)
        } else if level == 1 && p.ppn0 == 0 {
            Some((p.ppn2 << 30u32) | (p.ppn1 << 21u32) | (vpn(mode, v_addr, 0) << 12u32) | offset)
        } else if level == 2 && p.ppn1 == 0 && p.ppn0 == 0 {
            Some(
                (p.ppn2 << 30u32) | (vpn(mode, v_addr, 1) << 21u32) | (vpn(mode, v_addr, 0) << 12u32)
                    | offset,
            )
        } else {
            None
        },
    }
}

/// The level at which a walk starts: two levels under Sv32, three otherwise.
pub open spec fn spec_root_level(mode: AddressingMode) -> u8 {
    match mode {
        AddressingMode::Sv32 => 1,
        _ => 2,
    }
}

#[verifier::when_used_as_spec(spec_root_level)]
pub fn root_level(mode: AddressingMode) -> (l: u8)
    ensures
        l == spec_root_level(mode),
{
    match mode {
        AddressingMode::Sv32 => 1,
        _ => 2,
    }
}

/// Whether addresses are translated: under Sv32 and Sv39, in user and
/// supervisor mode.
pub open spec fn spec_translates(mode: AddressingMode, privilege: Privilege) -> bool {
    match mode {
        AddressingMode::Sv32 => privilege == Privilege::User || privilege == Privilege::Supervisor,
        AddressingMode::Sv39 => privilege == Privilege::User || privilege == Privilege::Supervisor,
        _ => false,
    }
}

#[verifier::when_used_as_spec(spec_translates)]
pub fn translates(mode: AddressingMode, privilege: Privilege) -> (b: bool)
    ensures
        b == spec_translates(mode, privilege),
{
    match mode {
        AddressingMode::Sv32 => privilege == Privilege::User || privilege == Privilege::Supervisor,
        AddressingMode::Sv39 => privilege == Privilege::User || privilege == Privilege::Supervisor,
        _ => false,
    }
}

/// The translation mode that a value of the address translation register
/// selects: under XLEN 64 by its top four bits, 0 for Bare and 8 for Sv39;
/// under XLEN 32 by bit 31, for Bare or Sv32. `None` for a mode that is not
/// implemented.
pub open spec fn spec_satp_mode(xlen: Xlen, data: u64) -> Option<AddressingMode> {
    match xlen {
        Xlen::X64 => if data >> 60u32 == 0 {
            Some(AddressingMode::Bare)
        } else if data >> 60u32 == 8 {
            Some(AddressingMode::Sv39)
        } else {
            None
        },
        Xlen::X32 => if data & 0x8000_0000 == 0 {
            Some(AddressingMode::Bare)
        } else {
            Some(AddressingMode::Sv32)
        },
    }
}

#[verifier::when_used_as_spec(spec_satp_mode)]
pub fn satp_mode(xlen: Xlen, data: u64) -> (m: Option<AddressingMode>)
    ensures
        m == spec_satp_mode(xlen, data),
{
    match xlen {
        Xlen::X64 => if data >> 60u32 == 0 {
            Some(AddressingMode::Bare)
        } else if data >> 60u32 == 8 {
            Some(AddressingMode::Sv39)
        } else {
            None
        },
        Xlen::X32 => if data & 0x8000_0000 == 0 {
            Some(AddressingMode::Bare)
        } else {
            Some(AddressingMode::Sv32)
        },
    }
}

/// The page number of the root table in a value of the address translation
/// register: its low 44 bits under XLEN 64, its low 22 bits under XLEN 32.
pub open spec fn spec_satp_ppn(xlen: Xlen, data: u64) -> u64 {
    match xlen {
        Xlen::X64 => data & 0xfff_ffff_ffff,
        Xlen::X32 => data & 0x3f_ffff,
    }
}

#[verifier::when_used_as_spec(spec_satp_ppn)]
pub fn satp_ppn(xlen: Xlen, data: u64) -> (n: u64)
    ensures
        n == spec_satp_ppn(xlen, data),
{
    match xlen {
        Xlen::X64 => data & 0xfff_ffff_ffff,
        Xlen::X32 => data & 0x3f_ffff,
    }
}

/// Reads the page table entry at the physical address `addr`: 32 bits
/// under Sv32, 64 bits otherwise.
pub open spec fn pte_read(bus: BusView, mode: AddressingMode, addr: u64) -> (BusView, Result<
    u64,
    (),
>) {
    match mode {
        AddressingMode::Sv32 => (
            bus.read32(addr).0,
            match bus.read32(addr).1 {
                Ok(data) => Ok(data as u64),
                Err(e) => Err(e),
            },
        ),
        _ => bus.read64(addr),
    }
}

/// Writes the page table entry at the physical address `addr`.
pub open spec fn pte_write(bus: BusView, mode: AddressingMode, addr: u64, pte: u64) -> (
    BusView,
    Result<(), ()>,
) {
    match mode {
        AddressingMode::Sv32 => bus.write32(addr, pte as u32),
        _ => bus.write64(addr, pte),
    }
}

/// The page walk for `v_addr` from `level` down, in the table at page
/// `parent_ppn`: the bus after the walk, and the physical address or a
/// fault. At each level the entry is read. An invalid entry is a fault. An
/// entry that points to a table continues the walk one level down, and is a
/// fault at level 0. A leaf that does not permit the access is a fault. A
/// leaf whose A bit, or for a write D bit, is not set is written back with
/// the bit set. A superpage that is not aligned is a fault. An entry that
/// cannot be read or written is a fault too.
#[verifier::opaque]
pub open spec fn walk(
    bus: BusView,
    mode: AddressingMode,
    xlen: Xlen,
    v_addr: u64,
    level: u8,
    parent_ppn: u64,
    access: MemoryAccessType,
) -> (BusView, Result<u64, ()>)
    decreases level,
{
    let pte_addr = spec_effective_address(xlen, spec_pte_address(mode, parent_ppn, v_addr, level));
    let (bus1, raw) = pte_read(bus, mode, pte_addr);
    match raw {
        Err(_) => (bus1, Err(())),
        Ok(pte) => {
            let p = spec_parse_pte(mode, pte);
            if !spec_pte_valid(p) {
                (bus1, Err(()))
            } else if spec_pte_is_pointer(p) {
                if level == 0 {
                    (bus1, Err(()))
                } else {
                    walk(bus1, mode, xlen, v_addr, (level - 1) as u8, p.ppn, access)
                }
            } else if !spec_permitted(p, access) {
                (bus1, Err(()))
            } else {
                let (bus2, written) = if spec_needs_update(p, access) {
                    pte_write(bus1, mode, pte_addr, spec_updated_pte(pte, access))
                } else {
                    (bus1, Ok(()))
                };
                match written {
                    Err(_) => (bus2, Err(())),
                    Ok(_) => match spec_leaf_address(mode, p, v_addr, level) {
                        None => (bus2, Err(())),
                        Some(p_addr) => (bus2, Ok(p_addr)),
                    },
                }
            }
        },
    }
}

/// The state of the translation unit and of the bus behind it.
pub struct MmuView {
    pub bus: BusView,
    pub xlen: Xlen,
    pub ppn: u64,
    pub addressing_mode: AddressingMode,
    pub privilege: Privilege,
    /// The physical addresses that are reserved by a load-reserved.
    pub reserved: Set<u64>,
}

impl MmuView {
    /// The unit after reset, in front of the bus of `machine`: machine mode,
    /// no translation, nothing reserved.
    pub open spec fn reset(xlen: Xlen, machine: Machine) -> MmuView {
        MmuView {
            bus: BusView::reset(machine),
            xlen,
            ppn: 0,
            addressing_mode: AddressingMode::Bare,
            privilege: Privilege::Machine,
            reserved: Set::empty(),
        }
    }

    /// The low XLEN bits of `addr`.
    pub open spec fn effective(self, addr: u64) -> u64 {
        spec_effective_address(self.xlen, addr)
    }

    /// The state with the bus replaced.
    pub open spec fn with_bus(self, bus: BusView) -> MmuView {
        MmuView { bus, ..self }
    }

    /// The bus after the translation of `v_addr`, and the physical address
    /// or a fault: the address itself where addresses are not translated,
    /// the result of the page walk from the root table otherwise.
    pub open spec fn translate(self, v_addr: u64, access: MemoryAccessType) -> (
        BusView,
        Result<u64, ()>,
    ) {
        if self.addressing_mode == AddressingMode::Bare {
            (self.bus, Ok(v_addr))
        } else if self.addressing_mode == AddressingMode::Sv32 || self.addressing_mode
            == AddressingMode::Sv39 {
            if spec_translates(self.addressing_mode, self.privilege) {
                walk(
                    self.bus,
                    self.addressing_mode,
                    self.xlen,
                    v_addr,
                    spec_root_level(self.addressing_mode),
                    self.ppn,
                    access,
                )
            } else {
                (self.bus, Ok(v_addr))
            }
        } else {
            (self.bus, Err(()))
        }
    }

    /// The trap that a failed access of the given kind to `v_addr` raises.
    pub open spec fn fault(self, v_addr: u64, access: MemoryAccessType) -> Trap {
        Trap { exception: spec_page_fault(access), value: self.effective(v_addr) }
    }

    /// A load, or a fetch, of one byte: the address is translated, and the
    /// byte is read from the bus. A failed translation and a failed read
    /// raise the page fault of the access.
    pub open spec fn load8(self, v_addr: u64, access: MemoryAccessType) -> (MmuView, Result<
        u8,
        Trap,
    >) {
        let (bus1, translated) = self.translate(self.effective(v_addr), access);
        match translated {
            Err(_) => (self.with_bus(bus1), Err(self.fault(v_addr, access))),
            Ok(p_addr) => (
                self.with_bus(bus1.read8(p_addr).0),
                match bus1.read8(p_addr).1 {
                    Ok(data) => Ok(data),
                    Err(_) => Err(self.fault(v_addr, access)),
                },
            ),
        }
    }

    /// A load of 16 bits that lies within one page.
    pub open spec fn load16(self, v_addr: u64, access: MemoryAccessType) -> (MmuView, Result<
        u16,
        Trap,
    >) {
        let (bus1, translated) = self.translate(self.effective(v_addr), access);
        match translated {
            Err(_) => (self.with_bus(bus1), Err(self.fault(v_addr, access))),
            Ok(p_addr) => (
                self.with_bus(bus1.read16(p_addr).0),
                match bus1.read16(p_addr).1 {
                    Ok(data) => Ok(data),
                    Err(_) => Err(self.fault(v_addr, access)),
                },
            ),
        }
    }

    /// A load, or a fetch, of 32 bits that lies within one page.
    pub open spec fn load32(self, v_addr: u64, access: MemoryAccessType) -> (MmuView, Result<
        u32,
        Trap,
    >) {
        let (bus1, translated) = self.translate(self.effective(v_addr), access);
        match translated {
            Err(_) => (self.with_bus(bus1), Err(self.fault(v_addr, access))),
            Ok(p_addr) => (
                self.with_bus(bus1.read32(p_addr).0),
                match bus1.read32(p_addr).1 {
                    Ok(data) => Ok(data),
                    Err(_) => Err(self.fault(v_addr, access)),
                },
            ),
        }
    }

    /// A load of 64 bits that lies within one page.
    pub open spec fn load64(self, v_addr: u64, access: MemoryAccessType) -> (MmuView, Result<
        u64,
        Trap,
    >) {
        let (bus1, translated) = self.translate(self.effective(v_addr), access);
        match translated {
            Err(_) => (self.with_bus(bus1), Err(self.fault(v_addr, access))),
            Ok(p_addr) => (
                self.with_bus(bus1.read64(p_addr).0),
                match bus1.read64(p_addr).1 {
                    Ok(data) => Ok(data),
                    Err(_) => Err(self.fault(v_addr, access)),
                },
            ),
        }
    }

    /// A load of `n` bytes, one after the other from `v_addr` up, each
    /// translated by itself; the bytes are put together little-endian. The
    /// first failure ends the load.
    pub open spec fn load_bytes(self, v_addr: u64, n: nat, access: MemoryAccessType) -> (
        MmuView,
        Result<u64, Trap>,
    )
        decreases n,
    {
        if n == 0 {
            (self, Ok(0))
        } else {
            let (m1, low) = self.load_bytes(v_addr, (n - 1) as nat, access);
            match low {
                Err(e) => (m1, Err(e)),
                Ok(data) => {
                    let (m2, high) = m1.load8(v_addr.wrapping_add((n - 1) as u64), access);
                    match high {
                        Err(e) => (m2, Err(e)),
                        Ok(byte) => (m2, Ok(data | ((byte as u64) << ((8 * (n - 1)) as u64)))),
                    }
                },
            }
        }
    }

    /// A store of one byte: the address is translated, and the byte is
    /// written to the bus. A failed translation and a failed write raise a
    /// store page fault.
    pub open spec fn write8(self, v_addr: u64, data: u8) -> (MmuView, Result<(), Trap>) {
        let (bus1, translated) = self.translate(self.effective(v_addr), MemoryAccessType::Write);
        match translated {
            Err(_) => (self.with_bus(bus1), Err(self.fault(v_addr, MemoryAccessType::Write))),
            Ok(p_addr) => (
                self.with_bus(bus1.write8(p_addr, data).0),
                match bus1.write8(p_addr, data).1 {
                    Ok(_) => Ok(()),
                    Err(_) => Err(self.fault(v_addr, MemoryAccessType::Write)),
                },
            ),
        }
    }

    /// A store of 16 bits that lies within one page.
    pub open spec fn store16(self, v_addr: u64, data: u16) -> (MmuView, Result<(), Trap>) {
        let (bus1, translated) = self.translate(self.effective(v_addr), MemoryAccessType::Write);
        match translated {
            Err(_) => (self.with_bus(bus1), Err(self.fault(v_addr, MemoryAccessType::Write))),
            Ok(p_addr) => (
                self.with_bus(bus1.write16(p_addr, data).0),
                match bus1.write16(p_addr, data).1 {
                    Ok(_) => Ok(()),
                    Err(_) => Err(self.fault(v_addr, MemoryAccessType::Write)),
                },
            ),
        }
    }

    /// A store of 32 bits that lies within one page.
    pub open spec fn store32(self, v_addr: u64, data: u32) -> (MmuView, Result<(), Trap>) {
        let (bus1, translated) = self.translate(self.effective(v_addr), MemoryAccessType::Write);
        match translated {
            Err(_) => (self.with_bus(bus1), Err(self.fault(v_addr, MemoryAccessType::Write))),
            Ok(p_addr) => (
                self.with_bus(bus1.write32(p_addr, data).0),
                match bus1.write32(p_addr, data).1 {
                    Ok(_) => Ok(()),
                    Err(_) => Err(self.fault(v_addr, MemoryAccessType::Write)),
                },
            ),
        }
    }

    /// A store of 64 bits that lies within one page.
    pub open spec fn store64(self, v_addr: u64, data: u64) -> (MmuView, Result<(), Trap>) {
        let (bus1, translated) = self.translate(self.effective(v_addr), MemoryAccessType::Write);
        match translated {
            Err(_) => (self.with_bus(bus1), Err(self.fault(v_addr, MemoryAccessType::Write))),
            Ok(p_addr) => (
                self.with_bus(bus1.write64(p_addr, data).0),
                match bus1.write64(p_addr, data).1 {
                    Ok(_) => Ok(()),
                    Err(_) => Err(self.fault(v_addr, MemoryAccessType::Write)),
                },
            ),
        }
    }

    /// A store of the `n` low bytes of `data`, one after the other from
    /// `v_addr` up, each translated by itself. The first failure ends the
    /// store; the bytes before it stay written.
    pub open spec fn store_bytes(self, v_addr: u64, data: u64, n: nat) -> (MmuView, Result<
        (),
        Trap,
    >)
        decreases n,
    {
        if n == 0 {
            (self, Ok(()))
        } else {
            let (m1, low) = self.store_bytes(v_addr, data, (n - 1) as nat);
            match low {
                Err(e) => (m1, Err(e)),
                Ok(_) => m1.write8(
                    v_addr.wrapping_add((n - 1) as u64),
                    ((data >> ((8 * (n - 1)) as u64)) & 0xff) as u8,
                ),
            }
        }
    }

    /// Whether an access of `n` bytes at `v_addr` lies within one page.
    pub open spec fn within_page(v_addr: u64, n: u64) -> bool {
        v_addr & (PAGE_SIZE - 1) as u64 <= PAGE_SIZE - n
    }

    pub open spec fn read8(self, v_addr: u64) -> (MmuView, Result<u8, Trap>) {
        self.load8(v_addr, MemoryAccessType::Read)
    }

    /// A load of 16 bits: one access where it lies within one page, two
    /// byte loads where it crosses into the next.
    pub open spec fn read16(self, v_addr: u64) -> (MmuView, Result<u16, Trap>) {
        if Self::within_page(v_addr, 2) {
            self.load16(v_addr, MemoryAccessType::Read)
        } else {
            let (m, r) = self.load_bytes(v_addr, 2, MemoryAccessType::Read);
            (
                m,
                match r {
                    Ok(data) => Ok(data as u16),
                    Err(e) => Err(e),
                },
            )
        }
    }

    /// A load, or a fetch, of 32 bits: one access where it lies within one
    /// page, four byte loads where it crosses into the next.
    pub open spec fn aligned_or_bytes32(self, v_addr: u64, access: MemoryAccessType) -> (
        MmuView,
        Result<u32, Trap>,
    ) {
        if Self::within_page(v_addr, 4) {
            self.load32(v_addr, access)
        } else {
            let (m, r) = self.load_bytes(v_addr, 4, access);
            (
                m,
                match r {
                    Ok(data) => Ok(data as u32),
                    Err(e) => Err(e),
                },
            )
        }
    }

    pub open spec fn read32(self, v_addr: u64) -> (MmuView, Result<u32, Trap>) {
        self.aligned_or_bytes32(v_addr, MemoryAccessType::Read)
    }

    pub open spec fn fetch32(self, v_addr: u64) -> (MmuView, Result<u32, Trap>) {
        self.aligned_or_bytes32(v_addr, MemoryAccessType::Fetch)
    }

    /// A load of 64 bits: one access where it lies within one page, eight
    /// byte loads where it crosses into the next.
    pub open spec fn read64(self, v_addr: u64) -> (MmuView, Result<u64, Trap>) {
        if Self::within_page(v_addr, 8) {
            self.load64(v_addr, MemoryAccessType::Read)
        } else {
            self.load_bytes(v_addr, 8, MemoryAccessType::Read)
        }
    }

    /// A store of 16 bits: one access where it lies within one page, two
    /// byte stores where it crosses into the next.
    pub open spec fn write16(self, v_addr: u64, data: u16) -> (MmuView, Result<(), Trap>) {
        if Self::within_page(v_addr, 2) {
            self.store16(v_addr, data)
        } else {
            self.store_bytes(v_addr, data as u64, 2)
        }
    }

    /// A store of 32 bits: one access where it lies within one page, four
    /// byte stores where it crosses into the next.
    pub open spec fn write32(self, v_addr: u64, data: u32) -> (MmuView, Result<(), Trap>) {
        if Self::within_page(v_addr, 4) {
            self.store32(v_addr, data)
        } else {
            self.store_bytes(v_addr, data as u64, 4)
        }
    }

    /// A store of 64 bits: one access where it lies within one page, eight
    /// byte stores where it crosses into the next.
    pub open spec fn write64(self, v_addr: u64, data: u64) -> (MmuView, Result<(), Trap>) {
        if Self::within_page(v_addr, 8) {
            self.store64(v_addr, data)
        } else {
            self.store_bytes(v_addr, data, 8)
        }
    }

    /// A load of the given width; the value is zero-extended to 64 bits.
    pub open spec fn read(self, width: Width, v_addr: u64) -> (MmuView, Result<u64, Trap>) {
        match width {
            Width::Byte => (
                self.read8(v_addr).0,
                match self.read8(v_addr).1 {
                    Ok(data) => Ok(data as u64),
                    Err(e) => Err(e),
                },
            ),
            Width::Half => (
                self.read16(v_addr).0,
                match self.read16(v_addr).1 {
                    Ok(data) => Ok(data as u64),
                    Err(e) => Err(e),
                },
            ),
            Width::Word => (
                self.read32(v_addr).0,
                match self.read32(v_addr).1 {
                    Ok(data) => Ok(data as u64),
                    Err(e) => Err(e),
                },
            ),
            Width::Double => self.read64(v_addr),
        }
    }

    /// A store of the low bits of `data` at the given width.
    pub open spec fn write(self, width: Width, v_addr: u64, data: u64) -> (MmuView, Result<
        (),
        Trap,
    >) {
        match width {
            Width::Byte => self.write8(v_addr, data as u8),
            Width::Half => self.write16(v_addr, data as u16),
            Width::Word => self.write32(v_addr, data as u32),
            Width::Double => self.write64(v_addr, data),
        }
    }

    /// A read of 32 bits at the physical address `p_addr`, without translation.
    pub open spec fn read32_direct(self, p_addr: u64) -> (MmuView, Result<u32, Trap>) {
        (
            self.with_bus(self.bus.read32(p_addr).0),
            match self.bus.read32(p_addr).1 {
                Ok(data) => Ok(data),
                Err(_) => Err(self.fault(p_addr, MemoryAccessType::Read)),
            },
        )
    }

    /// The state after a write of `data` to the address translation
    /// register: the mode and the root page number that `data` selects; no
    /// change where `data` selects a mode that is not implemented.
    pub open spec fn with_satp(self, data: u64) -> MmuView {
        match spec_satp_mode(self.xlen, data) {
            Some(mode) => MmuView {
                addressing_mode: mode,
                ppn: spec_satp_ppn(self.xlen, data),
                ..self
            },
            None => self,
        }
    }

    /// The state after the physical address of `v_addr` was reserved: the
    /// address is translated as for a load; where that fails, nothing is
    /// reserved.
    pub open spec fn reserving(self, v_addr: u64) -> MmuView {
        let (bus, translated) = self.translate(self.effective(v_addr), MemoryAccessType::Read);
        match translated {
            Ok(p_addr) => self.with_bus(bus).with_reserve(p_addr, true),
            Err(_) => self.with_bus(bus),
        }
    }

    /// The state with `addr` reserved, or with its reservation given up.
    pub open spec fn with_reserve(self, addr: u64, request_reserve: bool) -> MmuView {
        MmuView {
            reserved: if request_reserve {
                self.reserved.insert(addr)
            } else {
                self.reserved.remove(addr)
            },
            ..self
        }
    }
}

/// Once a load of bytes has failed, loading more bytes changes nothing.
pub proof fn lemma_load_bytes_failed(
    m: MmuView,
    v_addr: u64,
    k: nat,
    n: nat,
    access: MemoryAccessType,
)
    requires
        k <= n,
        m.load_bytes(v_addr, k, access).1 is Err,
    ensures
        m.load_bytes(v_addr, n, access) == m.load_bytes(v_addr, k, access),
    decreases n,
{
    if k < n {
        lemma_load_bytes_failed(m, v_addr, k, (n - 1) as nat, access);
    }
}

/// Once a store of bytes has failed, storing more bytes changes nothing.
pub proof fn lemma_store_bytes_failed(m: MmuView, v_addr: u64, data: u64, k: nat, n: nat)
    requires
        k <= n,
        m.store_bytes(v_addr, data, k).1 is Err,
    ensures
        m.store_bytes(v_addr, data, n) == m.store_bytes(v_addr, data, k),
    decreases n,
{
    if k < n {
        lemma_store_bytes_failed(m, v_addr, data, k, (n - 1) as nat);
    }
}

/// A page walk that meets an entry in which V is clear, or W is set
/// without R, ends in a fault, whatever the level and the kind of access.
pub proof fn lemma_invalid_entry_faults(
    bus: BusView,
    mode: AddressingMode,
    xlen: Xlen,
    v_addr: u64,
    level: u8,
    parent_ppn: u64,
    access: MemoryAccessType,
    pte: u64,
)
    requires
        pte_read(
            bus,
            mode,
            spec_effective_address(xlen, spec_pte_address(mode, parent_ppn, v_addr, level)),
        ).1 == Ok::<u64, ()>(pte),
        pte & 0x1 == 0 || (pte & 0x2 == 0 && pte & 0x4 != 0),
    ensures
        walk(bus, mode, xlen, v_addr, level, parent_ppn, access).1 is Err,
{
    reveal(walk);
    assert(pte & 0x1 == 0 ==> (pte & 0x1) as u8 == 0) by (bit_vector);
    assert(pte & 0x2 == 0 && pte & 0x4 != 0 ==> ((pte >> 1) & 0x1) as u8 == 0 && ((pte >> 2) & 0x1)
        as u8 == 1) by (bit_vector);
}

/// An access in user or supervisor mode under Sv32 or Sv39 whose root
/// page table entry has V clear, or W set without R, raises the page fault
/// of its kind: an instruction page fault for a fetch, a load page fault
/// for a load, a store page fault for a store.
pub proof fn lemma_invalid_root_entry_traps(m: MmuView, v_addr: u64, data: u8, pte: u64)
    requires
        spec_translates(m.addressing_mode, m.privilege),
        pte_read(
            m.bus,
            m.addressing_mode,
            spec_effective_address(
                m.xlen,
                spec_pte_address(
                    m.addressing_mode,
                    m.ppn,
                    m.effective(v_addr),
                    spec_root_level(m.addressing_mode),
                ),
            ),
        ).1 == Ok::<u64, ()>(pte),
        pte & 0x1 == 0 || (pte & 0x2 == 0 && pte & 0x4 != 0),
    ensures
        m.read8(v_addr).1 == Err::<u8, Trap>(
            Trap { exception: Exception::LoadPageFault, value: m.effective(v_addr) },
        ),
        m.load8(v_addr, MemoryAccessType::Fetch).1 == Err::<u8, Trap>(
            Trap { exception: Exception::InstructionPageFault, value: m.effective(v_addr) },
        ),
        m.write8(v_addr, data).1 == Err::<(), Trap>(
            Trap { exception: Exception::StorePageFault, value: m.effective(v_addr) },
        ),
        MmuView::within_page(v_addr, 4) ==> m.read32(v_addr).1 is Err && m.fetch32(v_addr).1 is Err,
{
    let level = spec_root_level(m.addressing_mode);
    let ev = m.effective(v_addr);
    lemma_invalid_entry_faults(
        m.bus,
        m.addressing_mode,
        m.xlen,
        ev,
        level,
        m.ppn,
        MemoryAccessType::Read,
        pte,
    );
    lemma_invalid_entry_faults(
        m.bus,
        m.addressing_mode,
        m.xlen,
        ev,
        level,
        m.ppn,
        MemoryAccessType::Fetch,
        pte,
    );
    lemma_invalid_entry_faults(
        m.bus,
        m.addressing_mode,
        m.xlen,
        ev,
        level,
        m.ppn,
        MemoryAccessType::Write,
        pte,
    );
}

/// The address translation unit in front of the bus, with the set of
/// reserved addresses.
pub struct Mmu {
    pub bus: Bus,
    pub xlen: Xlen,
    pub ppn: u64,
    pub addressing_mode: AddressingMode,
    pub privilege: Privilege,
    pub reserved_address: HashSet<u64>,
}

impl View for Mmu {
    type V = MmuView;

    open spec fn view(&self) -> MmuView {
        MmuView {
            bus: self.bus@,
            xlen: self.xlen,
            ppn: self.ppn,
            addressing_mode: self.addressing_mode,
            privilege: self.privilege,
            reserved: self.reserved_address@,
        }
    }
}

impl Mmu {
    /// The unit after reset, in front of the bus of `machine`: machine mode,
    /// no translation, nothing reserved.
    pub fn new(_xlen: Xlen, machine: Machine, console: Box<dyn Console>) -> (mmu: Self)
        ensures
            mmu@ == MmuView::reset(_xlen, machine),
    {
        Mmu {
            bus: Bus::new(machine, console),
            xlen: _xlen,
            ppn: 0,
            addressing_mode: AddressingMode::Bare,
            privilege: Privilege::Machine,
            reserved_address: HashSet::new(),
        }
    }

    pub fn set_privilege(&mut self, privilege: &Privilege)
        ensures
            final(self)@ == (MmuView { privilege: *privilege, ..old(self)@ }),
    {
        self.privilege = *privilege;
    }

    pub fn set_xlen(&mut self, xlen: &Xlen)
        ensures
            final(self)@ == (MmuView { xlen: *xlen, ..old(self)@ }),
    {
        self.xlen = *xlen;
    }

    /// Takes over a value written to the address translation register.
    pub fn update_addressing_mode(&mut self, data: u64)
        ensures
            final(self)@ == old(self)@.with_satp(data),
    {
        match satp_mode(self.xlen, data) {
            Some(mode) => {
                self.ppn = satp_ppn(self.xlen, data);
                self.addressing_mode = mode;
            },
            None => {},
        }
    }

    /// Reserves `addr`, or gives its reservation up.
    pub fn set_address_reserve(&mut self, addr: u64, request_reserve: bool)
        ensures
            final(self)@ == old(self)@.with_reserve(addr, request_reserve),
    {
        if request_reserve {
            self.reserved_address.insert(addr);
        } else {
            self.reserved_address.remove(&addr);
        }
    }

    /// Reserves the physical address of `v_addr`.
    pub fn reserve(&mut self, v_addr: u64)
        ensures
            final(self)@ == old(self)@.reserving(v_addr),
    {
        let ev_addr: u64 = self.to_effective_address(v_addr);
        match self.to_physical_address(ev_addr, MemoryAccessType::Read) {
            Ok(p_addr) => self.set_address_reserve(p_addr, true),
            Err(_) => {},
        }
    }

    pub fn is_address_reserved(&mut self, addr: u64) -> (reserved: bool)
        ensures
            final(self)@ == old(self)@,
            reserved == old(self)@.reserved.contains(addr),
    {
        self.reserved_address.contains(&addr)
    }

    pub fn get_bus(&mut self) -> (bus: &mut Bus)
        ensures
            *bus == old(self).bus,
            final(self)@ == old(self)@.with_bus((*final(bus))@),
    {
        &mut self.bus
    }

    pub fn read8(&mut self, v_addr: u64) -> (r: Result<u8, Trap>)
        ensures
            (final(self)@, r) == old(self)@.read8(v_addr),
    {
        self.load8(v_addr, MemoryAccessType::Read)
    }

    pub fn read16(&mut self, v_addr: u64) -> (r: Result<u16, Trap>)
        ensures
            (final(self)@, r) == old(self)@.read16(v_addr),
    {
        if v_addr & (PAGE_SIZE - 1) <= PAGE_SIZE - 2 {
            let ev_addr: u64 = self.to_effective_address(v_addr);
            match self.to_physical_address(ev_addr, MemoryAccessType::Read) {
                Ok(p_addr) => match self.bus.read16(p_addr) {
                    Ok(data) => Ok(data),
                    Err(_) => Err(Trap { exception: Exception::LoadPageFault, value: ev_addr }),
                },
                Err(_) => Err(Trap { exception: Exception::LoadPageFault, value: ev_addr }),
            }
        } else {
            match self.load_bytes(v_addr, 2, MemoryAccessType::Read) {
                Ok(data) => Ok(data as u16),
                Err(e) => Err(e),
            }
        }
    }

    pub fn read32(&mut self, v_addr: u64) -> (r: Result<u32, Trap>)
        ensures
            (final(self)@, r) == old(self)@.read32(v_addr),
    {
        self.aligned_or_bytes32(v_addr, MemoryAccessType::Read)
    }

    /// Reads 32 bits at the physical address `p_addr`, without translation.
    pub fn read32_direct(&mut self, p_addr: u64) -> (r: Result<u32, Trap>)
        ensures
            (final(self)@, r) == old(self)@.read32_direct(p_addr),
    {
        let ep_addr: u64 = self.to_effective_address(p_addr);
        match self.bus.read32(p_addr) {
            Ok(data) => Ok(data),
            Err(_) => Err(Trap { exception: Exception::LoadPageFault, value: ep_addr }),
        }
    }

    pub fn read64(&mut self, v_addr: u64) -> (r: Result<u64, Trap>)
        ensures
            (final(self)@, r) == old(self)@.read64(v_addr),
    {
        if v_addr & (PAGE_SIZE - 1) <= PAGE_SIZE - 8 {
            let ev_addr: u64 = self.to_effective_address(v_addr);
            match self.to_physical_address(ev_addr, MemoryAccessType::Read) {
                Ok(p_addr) => match self.bus.read64(p_addr) {
                    Ok(data) => Ok(data),
                    Err(_) => Err(Trap { exception: Exception::LoadPageFault, value: ev_addr }),
                },
                Err(_) => Err(Trap { exception: Exception::LoadPageFault, value: ev_addr }),
            }
        } else {
            self.load_bytes(v_addr, 8, MemoryAccessType::Read)
        }
    }

    pub fn write8(&mut self, v_addr: u64, val: u8) -> (r: Result<(), Trap>)
        ensures
            (final(self)@, r) == old(self)@.write8(v_addr, val),
    {
        let ev_addr: u64 = self.to_effective_address(v_addr);
        match self.to_physical_address(ev_addr, MemoryAccessType::Write) {
            Ok(p_addr) => match self.bus.write8(p_addr, val) {
                Ok(_) => Ok(()),
                Err(_) => Err(Trap { exception: Exception::StorePageFault, value: ev_addr }),
            },
            Err(_) => Err(Trap { exception: Exception::StorePageFault, value: ev_addr }),
        }
    }

    pub fn write16(&mut self, v_addr: u64, data: u16) -> (r: Result<(), Trap>)
        ensures
            (final(self)@, r) == old(self)@.write16(v_addr, data),
    {
        if v_addr & (PAGE_SIZE - 1) <= PAGE_SIZE - 2 {
            let ev_addr: u64 = self.to_effective_address(v_addr);
            match self.to_physical_address(ev_addr, MemoryAccessType::Write) {
                Ok(p_addr) => match self.bus.write16(p_addr, data) {
                    Ok(_) => Ok(()),
                    Err(_) => Err(Trap { exception: Exception::StorePageFault, value: ev_addr }),
                },
                Err(_) => Err(Trap { exception: Exception::StorePageFault, value: ev_addr }),
            }
        } else {
            self.store_bytes(v_addr, data as u64, 2)
        }
    }

    pub fn write32(&mut self, v_addr: u64, data: u32) -> (r: Result<(), Trap>)
        ensures
            (final(self)@, r) == old(self)@.write32(v_addr, data),
    {
        if v_addr & (PAGE_SIZE - 1) <= PAGE_SIZE - 4 {
            let ev_addr: u64 = self.to_effective_address(v_addr);
            match self.to_physical_address(ev_addr, MemoryAccessType::Write) {
                Ok(p_addr) => match self.bus.write32(p_addr, data) {
                    Ok(_) => Ok(()),
                    Err(_) => Err(Trap { exception: Exception::StorePageFault, value: ev_addr }),
                },
                Err(_) => Err(Trap { exception: Exception::StorePageFault, value: ev_addr }),
            }
        } else {
            self.store_bytes(v_addr, data as u64, 4)
        }
    }

    pub fn write64(&mut self, v_addr: u64, data: u64) -> (r: Result<(), Trap>)
        ensures
            (final(self)@, r) == old(self)@.write64(v_addr, data),
    {
        if v_addr & (PAGE_SIZE - 1) <= PAGE_SIZE - 8 {
            let ev_addr: u64 = self.to_effective_address(v_addr);
            match self.to_physical_address(ev_addr, MemoryAccessType::Write) {
                Ok(p_addr) => match self.bus.write64(p_addr, data) {
                    Ok(_) => Ok(()),
                    Err(_) => Err(Trap { exception: Exception::StorePageFault, value: ev_addr }),
                },
                Err(_) => Err(Trap { exception: Exception::StorePageFault, value: ev_addr }),
            }
        } else {
            self.store_bytes(v_addr, data, 8)
        }
    }

    pub fn fetch32(&mut self, v_addr: u64) -> (r: Result<u32, Trap>)
        ensures
            (final(self)@, r) == old(self)@.fetch32(v_addr),
    {
        self.aligned_or_bytes32(v_addr, MemoryAccessType::Fetch)
    }

    /// Loads a value of the given width, zero-extended to 64 bits.
    pub fn read_width(&mut self, width: Width, v_addr: u64) -> (r: Result<u64, Trap>)
        ensures
            (final(self)@, r) == old(self)@.read(width, v_addr),
    {
        match width {
            Width::Byte => match self.read8(v_addr) {
                Ok(data) => Ok(data as u64),
                Err(e) => Err(e),
            },
            Width::Half => match self.read16(v_addr) {
                Ok(data) => Ok(data as u64),
                Err(e) => Err(e),
            },
            Width::Word => match self.read32(v_addr) {
                Ok(data) => Ok(data as u64),
                Err(e) => Err(e),
            },
            Width::Double => self.read64(v_addr),
        }
    }

    /// Stores the low bits of `data` at the given width.
    pub fn write_width(&mut self, width: Width, v_addr: u64, data: u64) -> (r: Result<(), Trap>)
        ensures
            (final(self)@, r) == old(self)@.write(width, v_addr, data),
    {
        match width {
            Width::Byte => self.write8(v_addr, data as u8),
            Width::Half => self.write16(v_addr, data as u16),
            Width::Word => self.write32(v_addr, data as u32),
            Width::Double => self.write64(v_addr, data),
        }
    }

    /// Fetches one byte of an instruction that crosses a page boundary.
    pub fn fetch8(&mut self, v_addr: u64) -> (r: Result<u8, Trap>)
        ensures
            (final(self)@, r) == old(self)@.load8(v_addr, MemoryAccessType::Fetch),
    {
        self.load8(v_addr, MemoryAccessType::Fetch)
    }

    /// Loads or fetches one byte.
    pub fn load8(&mut self, v_addr: u64, access: MemoryAccessType) -> (r: Result<u8, Trap>)
        requires
            access != MemoryAccessType::Write,
        ensures
            (final(self)@, r) == old(self)@.load8(v_addr, access),
    {
        let ev_addr: u64 = self.to_effective_address(v_addr);
        match self.to_physical_address(ev_addr, access) {
            Ok(p_addr) => match self.bus.read8(p_addr) {
                Ok(data) => Ok(data),
                Err(_) => Err(Trap { exception: page_fault(access), value: ev_addr }),
            },
            Err(_) => Err(Trap { exception: page_fault(access), value: ev_addr }),
        }
    }

    /// Loads or fetches 32 bits: in one access where they lie within one
    /// page, byte by byte where they cross into the next.
    pub fn aligned_or_bytes32(&mut self, v_addr: u64, access: MemoryAccessType) -> (r: Result<
        u32,
        Trap,
    >)
        requires
            access != MemoryAccessType::Write,
        ensures
            (final(self)@, r) == old(self)@.aligned_or_bytes32(v_addr, access),
    {
        if v_addr & (PAGE_SIZE - 1) <= PAGE_SIZE - 4 {
            let ev_addr: u64 = self.to_effective_address(v_addr);
            match self.to_physical_address(ev_addr, access) {
                Ok(p_addr) => match self.bus.read32(p_addr) {
                    Ok(data) => Ok(data),
                    Err(_) => Err(Trap { exception: page_fault(access), value: ev_addr }),
                },
                Err(_) => Err(Trap { exception: page_fault(access), value: ev_addr }),
            }
        } else {
            match self.load_bytes(v_addr, 4, access) {
                Ok(data) => Ok(data as u32),
                Err(e) => Err(e),
            }
        }
    }

    /// Loads or fetches `n` bytes one by one and puts them together little-endian.
    pub fn load_bytes(&mut self, v_addr: u64, n: u8, access: MemoryAccessType) -> (r: Result<
        u64,
        Trap,
    >)
        requires
            n <= 8,
            access != MemoryAccessType::Write,
        ensures
            (final(self)@, r) == old(self)@.load_bytes(v_addr, n as nat, access),
    {
        let mut data: u64 = 0;
        let mut i: u8 = 0;
        while i < n
            invariant
                i <= n <= 8,
                access != MemoryAccessType::Write,
                (self@, Ok::<u64, Trap>(data)) == old(self)@.load_bytes(v_addr, i as nat, access),
            decreases n - i,
        {
            match self.load8(v_addr.wrapping_add(i as u64), access) {
                Ok(byte) => {
                    data = data | ((byte as u64) << ((8 * i) as u64));
                },
                Err(e) => {
                    proof {
                        lemma_load_bytes_failed(
                            old(self)@,
                            v_addr,
                            (i + 1) as nat,
                            n as nat,
                            access,
                        );
                    }
                    return Err(e);
                },
            }
            i += 1;
        }
        Ok(data)
    }

    /// Stores the `n` low bytes of `data` one by one.
    pub fn store_bytes(&mut self, v_addr: u64, data: u64, n: u8) -> (r: Result<(), Trap>)
        requires
            n <= 8,
        ensures
            (final(self)@, r) == old(self)@.store_bytes(v_addr, data, n as nat),
    {
        let mut i: u8 = 0;
        while i < n
            invariant
                i <= n <= 8,
                (self@, Ok::<(), Trap>(())) == old(self)@.store_bytes(v_addr, data, i as nat),
            decreases n - i,
        {
            match self.write8(
                v_addr.wrapping_add(i as u64),
                ((data >> ((8 * i) as u64)) & 0xff) as u8,
            ) {
                Ok(_) => {},
                Err(e) => {
                    proof {
                        lemma_store_bytes_failed(
                            old(self)@,
                            v_addr,
                            data,
                            (i + 1) as nat,
                            n as nat,
                        );
                    }
                    return Err(e);
                },
            }
            i += 1;
        }
        Ok(())
    }

    /// Translates the virtual address `v_addr` for an access of the given kind.
    pub fn to_physical_address(&mut self, v_addr: u64, access_type: MemoryAccessType) -> (r:
        Result<u64, ()>)
        ensures
            final(self)@ == old(self)@.with_bus(old(self)@.translate(v_addr, access_type).0),
            r == old(self)@.translate(v_addr, access_type).1,
    {
        match self.addressing_mode {
            AddressingMode::Bare => Ok(v_addr),
            AddressingMode::Sv32 | AddressingMode::Sv39 => {
                if translates(self.addressing_mode, self.privilege) {
                    self.page_waking(
                        v_addr,
                        root_level(self.addressing_mode),
                        self.ppn,
                        &access_type,
                    )
                } else {
                    Ok(v_addr)
                }
            },
            _ => Err(()),
        }
    }

    /// Walks the page tables for `v_addr` from `level` down, starting in
    /// the table at page `parent_ppn`.
    pub fn page_waking(
        &mut self,
        v_addr: u64,
        level: u8,
        parent_ppn: u64,
        access_type: &MemoryAccessType,
    ) -> (r: Result<u64, ()>)
        ensures
            final(self)@ == old(self)@.with_bus(
                walk(
                    old(self)@.bus,
                    old(self)@.addressing_mode,
                    old(self)@.xlen,
                    v_addr,
                    level,
                    parent_ppn,
                    *access_type,
                ).0,
            ),
            r == walk(
                old(self)@.bus,
                old(self)@.addressing_mode,
                old(self)@.xlen,
                v_addr,
                level,
                parent_ppn,
                *access_type,
            ).1,
        decreases level,
    {
        reveal(walk);
        let mode: AddressingMode = self.addressing_mode;
        let pte_addr: u64 = self.to_effective_address(
            pte_address(mode, parent_ppn, v_addr, level),
        );
        let pte: u64 = match mode {
            AddressingMode::Sv32 => match self.pte_read32(pte_addr) {
                Ok(data) => data as u64,
                Err(_) => {
                    return Err(());
                },
            },
            _ => match self.pte_read64(pte_addr) {
                Ok(data) => data,
                Err(_) => {
                    return Err(());
                },
            },
        };
        let pte_d: Pte = parse_pte(mode, pte);
        if !pte_valid(pte_d) {
            return Err(());
        }
        if pte_is_pointer(pte_d) {
            if level == 0 {
                return Err(());
            }
            return self.page_waking(v_addr, level - 1, pte_d.ppn, access_type);
        }
        if !permitted(pte_d, *access_type) {
            return Err(());
        }
        if needs_update(pte_d, *access_type) {
            let new_pte: u64 = updated_pte(pte, *access_type);
            let written: Result<(), ()> = match mode {
                AddressingMode::Sv32 => self.pte_write32(pte_addr, new_pte as u32),
                _ => self.pte_write64(pte_addr, new_pte),
            };
            if written.is_err() {
                return Err(());
            }
        }
        match leaf_address(mode, pte_d, v_addr, level) {
            Some(p_addr) => Ok(p_addr),
            None => Err(()),
        }
    }

    pub fn pte_read32(&mut self, addr: u64) -> (r: Result<u32, ()>)
        ensures
            final(self)@ == old(self)@.with_bus(old(self)@.bus.read32(addr).0),
            r == old(self)@.bus.read32(addr).1,
    {
        self.bus.read32(addr)
    }

    pub fn pte_read64(&mut self, addr: u64) -> (r: Result<u64, ()>)
        ensures
            final(self)@ == old(self)@.with_bus(old(self)@.bus.read64(addr).0),
            r == old(self)@.bus.read64(addr).1,
    {
        self.bus.read64(addr)
    }

    pub fn pte_write32(&mut self, addr: u64, data: u32) -> (r: Result<(), ()>)
        ensures
            final(self)@ == old(self)@.with_bus(old(self)@.bus.write32(addr, data).0),
            r == old(self)@.bus.write32(addr, data).1,
    {
        self.bus.write32(addr, data)
    }

    pub fn pte_write64(&mut self, addr: u64, data: u64) -> (r: Result<(), ()>)
        ensures
            final(self)@ == old(self)@.with_bus(old(self)@.bus.write64(addr, data).0),
            r == old(self)@.bus.write64(addr, data).1,
    {
        self.bus.write64(addr, data)
    }

    pub fn to_effective_address(&self, addr: u64) -> (e: u64)
        ensures
            e == self@.effective(addr),
    {
        effective_address(self.xlen, addr)
    }
}

} // verus!
