use vstd::prelude::*;

use crate::cpu::cpu::Privilege;
use crate::cpu::trap::{Exception, Trap};

verus! {

// CSR numbers.
pub const CSR_USTATUS: u16 = 0x000;
pub const CSR_UIE: u16 = 0x004;
pub const CSR_UTVEC: u16 = 0x005;
pub const CSR_USCRATCH: u16 = 0x040;
pub const CSR_UEPC: u16 = 0x041;
pub const CSR_UCAUSE: u16 = 0x042;
pub const CSR_UTVAL: u16 = 0x043;
pub const CSR_UIP: u16 = 0x044;
pub const CSR_FFLAGS: u16 = 0x001;
pub const CSR_FRM: u16 = 0x002;
pub const CSR_FCSR: u16 = 0x003;
pub const CSR_CYCLE: u16 = 0xC00;
pub const CSR_TIME: u16 = 0xC01;
pub const CSR_INSTRET: u16 = 0xC02;
pub const CSR_CYCLEH: u16 = 0xC80;
pub const CSR_TIMEH: u16 = 0xC81;
pub const CSR_INSTRETH: u16 = 0xC82;
pub const CSR_SSTATUS: u16 = 0x100;
pub const CSR_SEDELEG: u16 = 0x102;
pub const CSR_SIDELEG: u16 = 0x103;
pub const CSR_SIE: u16 = 0x104;
pub const CSR_STVEC: u16 = 0x105;
pub const CSR_SSCRATCH: u16 = 0x140;
pub const CSR_SEPC: u16 = 0x141;
pub const CSR_SCAUSE: u16 = 0x142;
pub const CSR_STVAL: u16 = 0x143;
pub const CSR_SIP: u16 = 0x144;
pub const CSR_SPTBR: u16 = 0x180;
pub const CSR_SCYCLE: u16 = 0xD00;
pub const CSR_STIME: u16 = 0xD01;
pub const CSR_SINSTRET: u16 = 0xD02;
pub const CSR_SCYCLEH: u16 = 0xD80;
pub const CSR_STIMEH: u16 = 0xD81;
pub const CSR_SINSTRETH: u16 = 0xD82;
pub const CSR_HSTATUS: u16 = 0x200;
pub const CSR_HEDELEG: u16 = 0x202;
pub const CSR_HIDELEG: u16 = 0x203;
pub const CSR_HIE: u16 = 0x204;
pub const CSR_HTVEC: u16 = 0x205;
pub const CSR_HSCRATCH: u16 = 0x240;
pub const CSR_HEPC: u16 = 0x241;
pub const CSR_HCAUSE: u16 = 0x242;
pub const CSR_HTVAL: u16 = 0x243;
pub const CSR_HCYCLE: u16 = 0xE00;
pub const CSR_HTIME: u16 = 0xE01;
pub const CSR_HINSTRET: u16 = 0xE02;
pub const CSR_HCYCLEH: u16 = 0xE80;
pub const CSR_HTIMEH: u16 = 0xE81;
pub const CSR_HINSTRETH: u16 = 0xE82;
pub const CSR_MVENDORID: u16 = 0xF11;
pub const CSR_MARCHID: u16 = 0xF12;
pub const CSR_MIMPID: u16 = 0xF13;
pub const CSR_MHARTID: u16 = 0xF14;
pub const CSR_MSTATUS: u16 = 0x300;
pub const CSR_MISA: u16 = 0x301;
pub const CSR_MEDELEG: u16 = 0x302;
pub const CSR_MIDELEG: u16 = 0x303;
pub const CSR_MIE: u16 = 0x304;
pub const CSR_MTVEC: u16 = 0x305;
pub const CSR_MSCRATCH: u16 = 0x340;
pub const CSR_MEPC: u16 = 0x341;
pub const CSR_MCAUSE: u16 = 0x342;
pub const CSR_MTVAL: u16 = 0x343;
pub const CSR_MIP: u16 = 0x344;
pub const CSR_MBASE: u16 = 0x380;
pub const CSR_MBOUND: u16 = 0x381;
pub const CSR_MIBASE: u16 = 0x382;
pub const CSR_MIBOUND: u16 = 0x383;
pub const CSR_MDBASE: u16 = 0x384;
pub const CSR_MDBOUND: u16 = 0x385;
pub const CSR_MCYCLE: u16 = 0xF00;
pub const CSR_MTIME: u16 = 0xF01;
pub const CSR_MINSTRET: u16 = 0xF02;
pub const CSR_MCYCLEH: u16 = 0xF80;
pub const CSR_MTIMEH: u16 = 0xF81;
pub const CSR_MINSTRETH: u16 = 0xF82;
pub const CSR_MUCONTEREN: u16 = 0x310;
pub const CSR_MSCONTEREN: u16 = 0x311;
pub const CSR_MHCONTEREN: u16 = 0x312;

// Fields of the status registers.
pub const CSR_STATUS_UIE: u64 = 0x00000001;
pub const CSR_STATUS_SIE: u64 = 0x00000002;
pub const CSR_STATUS_HIE: u64 = 0x00000004;
pub const CSR_STATUS_MIE: u64 = 0x00000008;
pub const CSR_STATUS_UPIE: u64 = 0x00000010;
pub const CSR_STATUS_SPIE: u64 = 0x00000020;
pub const CSR_STATUS_HPIE: u64 = 0x00000040;
pub const CSR_STATUS_MPIE: u64 = 0x00000080;
pub const CSR_STATUS_SPP: u64 = 0x00000100;
pub const CSR_STATUS_HPP: u64 = 0x00000600;
pub const CSR_STATUS_MPP: u64 = 0x00001800;
pub const CSR_STATUS_FS: u64 = 0x00006000;
pub const CSR_STATUS_XS: u64 = 0x00018000;
pub const CSR_STATUS_MPRV: u64 = 0x00020000;
pub const CSR_STATUS_PUM: u64 = 0x00040000;
pub const CSR_STATUS_MXR: u64 = 0x00080000;

// Pending bits of the interrupt registers.
pub const CSR_IP_USIP: u64 = 0x00000001;
pub const CSR_IP_SSIP: u64 = 0x00000002;
pub const CSR_IP_HSIP: u64 = 0x00000004;
pub const CSR_IP_MSIP: u64 = 0x00000008;
pub const CSR_IP_UTIP: u64 = 0x00000010;
pub const CSR_IP_STIP: u64 = 0x00000020;
pub const CSR_IP_HTIP: u64 = 0x00000040;
pub const CSR_IP_MTIP: u64 = 0x00000080;
pub const CSR_IP_UEIP: u64 = 0x00000100;
pub const CSR_IP_SEIP: u64 = 0x00000200;
pub const CSR_IP_HEIP: u64 = 0x00000400;
pub const CSR_IP_MEIP: u64 = 0x00000800;

// Enable bits of the interrupt registers.
pub const CSR_IE_USIE: u64 = 0x00000001;
pub const CSR_IE_SSIE: u64 = 0x00000002;
pub const CSR_IE_HSIE: u64 = 0x00000004;
pub const CSR_IE_MSIE: u64 = 0x00000008;
pub const CSR_IE_UTIE: u64 = 0x00000010;
pub const CSR_IE_STIE: u64 = 0x00000020;
pub const CSR_IE_HTIE: u64 = 0x00000040;
pub const CSR_IE_MTIE: u64 = 0x00000080;
pub const CSR_IE_UEIE: u64 = 0x00000100;
pub const CSR_IE_SEIE: u64 = 0x00000200;
pub const CSR_IE_HEIE: u64 = 0x00000400;
pub const CSR_IE_MEIE: u64 = 0x00000800;

/// The number of registers in the file.
pub const CSR_COUNT: usize = 4096;

/// The bits of `mstatus` that `sstatus` shows: UIE, SIE, UPIE, SPIE, SPP, FS, XS and PUM.
pub const SSTATUS_MASK: u64 = 0x0005_e133;

/// The bits of `mip` and `mie` that `sip` and `sie` show: the software,
/// timer and external bits of the user and supervisor levels.
pub const SIP_MASK: u64 = 0x0000_0333;

/// The value `misa` is reset to: RV64 with the extensions I, M, A, F, D, C, S and U.
pub const MISA_RESET: u64 = 0x8000_0000_8014_312f;

/// The lowest privilege level that may access the register numbered `addr`:
/// bits 9 and 8 of the number.
pub open spec fn csr_privilege(addr: u16) -> u8 {
    ((addr >> 8) & 0x3) as u8
}

/// The slot of the register file that backs the register numbered `addr`.
/// `fflags` and `frm` are fields of `fcsr`; `sstatus`, `sip` and `sie` are
/// restricted views of `mstatus`, `mip` and `mie`.
pub open spec fn csr_slot(addr: u16) -> u16 {
    if addr == CSR_FFLAGS || addr == CSR_FRM {
        CSR_FCSR
    } else if addr == CSR_SSTATUS {
        CSR_MSTATUS
    } else if addr == CSR_SIP {
        CSR_MIP
    } else if addr == CSR_SIE {
        CSR_MIE
    } else {
        addr
    }
}

/// What a read of the register numbered `addr` returns when the file holds `regs`.
pub open spec fn csr_value(regs: Seq<u64>, addr: u16) -> u64 {
    if addr == CSR_FFLAGS {
        regs[CSR_FCSR as int] & 0x1f
    } else if addr == CSR_FRM {
        (regs[CSR_FCSR as int] >> 5) & 0x7
    } else if addr == CSR_SSTATUS {
        regs[CSR_MSTATUS as int] & SSTATUS_MASK
    } else if addr == CSR_SIP {
        regs[CSR_MIP as int] & SIP_MASK
    } else if addr == CSR_SIE {
        regs[CSR_MIE as int] & SIP_MASK
    } else {
        regs[addr as int]
    }
}

/// The value that the backing slot holds after `data` was written to the
/// register numbered `addr`, when the slot held `slot` before. Bits of the
/// slot outside the register's view keep their value.
pub open spec fn csr_merge(addr: u16, slot: u64, data: u64) -> u64 {
    if addr == CSR_FFLAGS {
        (slot & !0x1fu64) | (data & 0x1f)
    } else if addr == CSR_FRM {
        (slot & !0xe0u64) | ((data << 5) & 0xe0)
    } else if addr == CSR_SSTATUS {
        (slot & !SSTATUS_MASK) | (data & SSTATUS_MASK)
    } else if addr == CSR_SIP || addr == CSR_SIE {
        (slot & !SIP_MASK) | (data & SIP_MASK)
    } else {
        data
    }
}

/// The register file after `data` was written to the register numbered `addr`.
pub open spec fn csr_written(regs: Seq<u64>, addr: u16, data: u64) -> Seq<u64> {
    regs.update(csr_slot(addr) as int, csr_merge(addr, regs[csr_slot(addr) as int], data))
}

/// The register file after the bits of `cmask` were cleared and those of
/// `smask` set in the register numbered `addr`.
pub open spec fn csr_modified(regs: Seq<u64>, addr: u16, smask: u64, cmask: u64) -> Seq<u64> {
    csr_written(regs, addr, (csr_value(regs, addr) & !cmask) | smask)
}

/// The bank of 4096 control and status registers.
pub struct Csr {
    pub csr: [u64; 4096],
}

impl View for Csr {
    type V = Seq<u64>;

    open spec fn view(&self) -> Seq<u64> {
        self.csr@
    }
}

impl Csr {
    /// A register file in which every register is zero but `misa`.
    pub fn new() -> (csr: Self)
        ensures
            csr@ == Seq::new(4096, |i: int| 0u64).update(CSR_MISA as int, MISA_RESET),
    {
        let mut csr = Csr { csr: [0u64; 4096] };
        csr.csr[CSR_MISA as usize] = MISA_RESET;
        assert(csr@ =~= Seq::new(4096, |i: int| 0u64).update(CSR_MISA as int, MISA_RESET));
        csr
    }

    /// Advances the `time` counter by one; it wraps at 2^64.
    pub fn tick(&mut self)
        ensures
            final(self)@ == old(self)@.update(
                CSR_TIME as int,
                old(self)@[CSR_TIME as int].wrapping_add(1),
            ),
    {
        self.csr[CSR_TIME as usize] = self.csr[CSR_TIME as usize].wrapping_add(1);
    }

    /// Reads a register on behalf of an instruction at `instruction_addr`
    /// that runs at `cur_privilege`.
    pub fn read(&mut self, addr: u16, instruction_addr: u64, cur_privilege: &Privilege) -> (r:
        Result<u64, Trap>)
        requires
            addr < 4096,
        ensures
            final(self)@ == old(self)@,
            csr_privilege(addr) <= cur_privilege.level() ==> r == Ok::<u64, Trap>(
                csr_value(old(self)@, addr),
            ),
            csr_privilege(addr) > cur_privilege.level() ==> r == Err::<u64, Trap>(
                Trap { exception: Exception::IllegalInstruction, value: instruction_addr },
            ),
    {
        let privilege: u8 = #[verifier::truncate] (((addr >> 8) & 0x3) as u8);
        let cur_level: u8 = cur_privilege.level();
        if privilege <= cur_level {
            Ok(self.read_direct(addr))
        } else {
            Err(Trap { exception: Exception::IllegalInstruction, value: instruction_addr })
        }
    }

    /// Reads a register without a privilege check.
    pub fn read_direct(&mut self, addr: u16) -> (data: u64)
        requires
            addr < 4096,
        ensures
            final(self)@ == old(self)@,
            data == csr_value(old(self)@, addr),
    {
        if addr == CSR_FFLAGS {
            self.csr[CSR_FCSR as usize] & 0x1f
        } else if addr == CSR_FRM {
            (self.csr[CSR_FCSR as usize] >> 5) & 0x7
        } else if addr == CSR_SSTATUS {
            self.csr[CSR_MSTATUS as usize] & SSTATUS_MASK
        } else if addr == CSR_SIP {
            self.csr[CSR_MIP as usize] & SIP_MASK
        } else if addr == CSR_SIE {
            self.csr[CSR_MIE as usize] & SIP_MASK
        } else {
            self.csr[addr as usize]
        }
    }

    /// Clears the bits of `cmask` and then sets those of `smask` in a
    /// register, without a privilege check.
    pub fn read_modify_write_direct(&mut self, addr: u16, smask: u64, cmask: u64)
        requires
            addr < 4096,
        ensures
            final(self)@ == csr_modified(old(self)@, addr, smask, cmask),
    {
        let data: u64 = self.read_direct(addr);
        self.write_direct(addr, (data & !cmask) | smask);
    }

    /// Writes a register on behalf of an instruction at `instruction_addr`
    /// that runs at `cur_privilege`. The result tells whether the address
    /// translation register was written, so that the caller can update the
    /// translation mode.
    pub fn write(
        &mut self,
        addr: u16,
        data: u64,
        instruction_addr: u64,
        cur_privilege: &Privilege,
    ) -> (r: Result<bool, Trap>)
        requires
            addr < 4096,
        ensures
            csr_privilege(addr) <= cur_privilege.level() ==> r == Ok::<bool, Trap>(
                addr == CSR_SPTBR,
            ) && final(self)@ == csr_written(old(self)@, addr, data),
            csr_privilege(addr) > cur_privilege.level() ==> r == Err::<bool, Trap>(
                Trap { exception: Exception::IllegalInstruction, value: instruction_addr },
            ) && final(self)@ == old(self)@,
    {
        let privilege: u8 = #[verifier::truncate] (((addr >> 8) & 0x3) as u8);
        let cur_level: u8 = cur_privilege.level();
        if privilege <= cur_level {
            self.write_direct(addr, data);
            Ok(addr == CSR_SPTBR)
        } else {
            Err(Trap { exception: Exception::IllegalInstruction, value: instruction_addr })
        }
    }

    /// Writes a register without a privilege check.
    pub fn write_direct(&mut self, addr: u16, data: u64)
        requires
            addr < 4096,
        ensures
            final(self)@ == csr_written(old(self)@, addr, data),
    {
        if addr == CSR_FFLAGS {
            let slot: u64 = self.csr[CSR_FCSR as usize];
            self.csr[CSR_FCSR as usize] = (slot & !0x1fu64) | (data & 0x1f);
        } else if addr == CSR_FRM {
            let slot: u64 = self.csr[CSR_FCSR as usize];
            self.csr[CSR_FCSR as usize] = (slot & !0xe0u64) | ((data << 5) & 0xe0);
        } else if addr == CSR_SSTATUS {
            let slot: u64 = self.csr[CSR_MSTATUS as usize];
            self.csr[CSR_MSTATUS as usize] = (slot & !SSTATUS_MASK) | (data & SSTATUS_MASK);
        } else if addr == CSR_SIP {
            let slot: u64 = self.csr[CSR_MIP as usize];
            self.csr[CSR_MIP as usize] = (slot & !SIP_MASK) | (data & SIP_MASK);
        } else if addr == CSR_SIE {
            let slot: u64 = self.csr[CSR_MIE as usize];
            self.csr[CSR_MIE as usize] = (slot & !SIP_MASK) | (data & SIP_MASK);
        } else {
            self.csr[addr as usize] = data;
        }
    }
}

/// A write through a restricted view changes, in the backing register, the
/// bits of the view only: what is read back through the view is the written
/// value cut to the view, and every other bit of the backing register keeps
/// its value.
pub proof fn lemma_view_write_keeps_other_bits(slot: u64, data: u64)
    ensures
        csr_merge(CSR_SSTATUS, slot, data) & SSTATUS_MASK == data & SSTATUS_MASK,
        csr_merge(CSR_SSTATUS, slot, data) & !SSTATUS_MASK == slot & !SSTATUS_MASK,
        csr_merge(CSR_SIP, slot, data) & SIP_MASK == data & SIP_MASK,
        csr_merge(CSR_SIP, slot, data) & !SIP_MASK == slot & !SIP_MASK,
        csr_merge(CSR_SIE, slot, data) & SIP_MASK == data & SIP_MASK,
        csr_merge(CSR_SIE, slot, data) & !SIP_MASK == slot & !SIP_MASK,
        csr_merge(CSR_FFLAGS, slot, data) & 0x1f == data & 0x1f,
        csr_merge(CSR_FFLAGS, slot, data) & !0x1fu64 == slot & !0x1fu64,
        (csr_merge(CSR_FRM, slot, data) >> 5) & 0x7 == data & 0x7,
        csr_merge(CSR_FRM, slot, data) & !0xe0u64 == slot & !0xe0u64,
{
    assert(((slot & !0x5e133u64) | (data & 0x5e133)) & 0x5e133 == data & 0x5e133
        && ((slot & !0x5e133u64) | (data & 0x5e133)) & !0x5e133u64 == slot & !0x5e133u64
        && ((slot & !0x333u64) | (data & 0x333)) & 0x333 == data & 0x333
        && ((slot & !0x333u64) | (data & 0x333)) & !0x333u64 == slot & !0x333u64
        && ((slot & !0x1fu64) | (data & 0x1f)) & 0x1f == data & 0x1f
        && ((slot & !0x1fu64) | (data & 0x1f)) & !0x1fu64 == slot & !0x1fu64
        && (((slot & !0xe0u64) | ((data << 5) & 0xe0)) >> 5) & 0x7 == data & 0x7
        && ((slot & !0xe0u64) | ((data << 5) & 0xe0)) & !0xe0u64 == slot & !0xe0u64)
        by (bit_vector);
}

} // verus!
