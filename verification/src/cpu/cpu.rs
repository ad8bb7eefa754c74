use vstd::prelude::*;

use crate::bus::bus::{BusView, Device};
use crate::console::Console;
use crate::cpu::cpu_csr::{
    csr_modified, csr_privilege, csr_value, csr_written, Csr, CSR_CYCLE, CSR_HCAUSE, CSR_HEPC,
    CSR_HIE, CSR_HSTATUS, CSR_HTVAL, CSR_HTVEC, CSR_IP_HEIP, CSR_IP_MEIP, CSR_IP_MSIP,
    CSR_IP_MTIP, CSR_IP_SEIP, CSR_IP_UEIP, CSR_MCAUSE, CSR_MEDELEG, CSR_MEPC, CSR_MIDELEG, CSR_MIE,
    CSR_MIP, CSR_MISA, CSR_MSTATUS, CSR_MTVAL, CSR_MTVEC, CSR_SCAUSE, CSR_SEDELEG, CSR_SEPC,
    CSR_SIDELEG, CSR_SIE, CSR_SIP, CSR_SPTBR, CSR_SSTATUS, CSR_STVAL, CSR_STVEC, CSR_TIME,
    CSR_UCAUSE, CSR_UEPC, CSR_UIE, CSR_UIP, CSR_USTATUS, CSR_UTVAL, CSR_UTVEC, MISA_RESET,
};
use crate::cpu::cpu_instruction::{
    alu, amo_double, amo_word, branch_taken, decode, parse_type_b, parse_type_csr, parse_type_i,
    parse_type_j, parse_type_r, parse_type_s, parse_type_u, sext, zext, AluOp, AmoOp, BranchOp,
    CsrOp, Instruction, Width,
};
use crate::cpu::cpu_instruction::{
    spec_alu, spec_amo_double, spec_amo_word, spec_branch_taken, spec_decode, spec_parse_type_b,
    spec_parse_type_csr, spec_parse_type_i, spec_parse_type_j, spec_parse_type_r,
    spec_parse_type_s, spec_parse_type_u, spec_sext,
};
use crate::cpu::cpu_instruction_comp::{decompress, spec_decompress};
use crate::cpu::mmu::{MemoryAccessType, Mmu, MmuView};
use crate::cpu::trap::{Exception, Interrupt, Trap};
use crate::machine::Machine;

verus! {

/// The width of the integer registers.
#[derive(Clone, Copy, Debug, PartialEq, Eq, Structural)]
pub enum Xlen {
    X32,
    X64,
}

#[derive(Clone, Copy, Debug, PartialEq, Eq, Structural)]
pub enum Privilege {
    User,
    Supervisor,
    Hypervisor,
    Machine,
}

impl Privilege {
    /// The privilege level as the two-bit number that the status registers
    /// and the CSR numbers use.
    pub open spec fn spec_level(self) -> u8 {
        match self {
            Privilege::User => 0,
            Privilege::Supervisor => 1,
            Privilege::Hypervisor => 2,
            Privilege::Machine => 3,
        }
    }

    #[verifier::when_used_as_spec(spec_level)]
    pub fn level(self) -> (l: u8)
        ensures
            l == self.spec_level(),
    {
        match self {
            Privilege::User => 0,
            Privilege::Supervisor => 1,
            Privilege::Hypervisor => 2,
            Privilege::Machine => 3,
        }
    }

    /// The privilege with the level that the low two bits of `level` give.
    pub open spec fn spec_from_level(level: u64) -> Privilege {
        if level % 4 == 0 {
            Privilege::User
        } else if level % 4 == 1 {
            Privilege::Supervisor
        } else if level % 4 == 2 {
            Privilege::Hypervisor
        } else {
            Privilege::Machine
        }
    }

    #[verifier::when_used_as_spec(spec_from_level)]
    pub fn from_level(level: u64) -> (p: Privilege)
        ensures
            p == Privilege::spec_from_level(level),
    {
        if level % 4 == 0 {
            Privilege::User
        } else if level % 4 == 1 {
            Privilege::Supervisor
        } else if level % 4 == 2 {
            Privilege::Hypervisor
        } else {
            Privilege::Machine
        }
    }
}

/// The bits of the machine delegation registers that can be set: all but
/// those of the machine-level interrupts.
pub const MACHINE_DELEGABLE: u64 = 0xffff_ffff_ffff_f777;

/// The bits of the supervisor delegation registers that can be set: all
/// but those of the machine-level and supervisor-level interrupts.
pub const SUPERVISOR_DELEGABLE: u64 = 0xffff_ffff_ffff_f111;

/// The status register of a privilege level.
pub open spec fn spec_status_register(p: Privilege) -> u16 {
    match p {
        Privilege::User => CSR_USTATUS,
        Privilege::Supervisor => CSR_SSTATUS,
        Privilege::Hypervisor => CSR_HSTATUS,
        Privilege::Machine => CSR_MSTATUS,
    }
}

#[verifier::when_used_as_spec(spec_status_register)]
pub fn status_register(p: Privilege) -> (csr: u16)
    ensures
        csr == spec_status_register(p),
{
    match p {
        Privilege::User => CSR_USTATUS,
        Privilege::Supervisor => CSR_SSTATUS,
        Privilege::Hypervisor => CSR_HSTATUS,
        Privilege::Machine => CSR_MSTATUS,
    }
}

/// The interrupt enable register of a privilege level.
pub open spec fn spec_ie_register(p: Privilege) -> u16 {
    match p {
        Privilege::User => CSR_UIE,
        Privilege::Supervisor => CSR_SIE,
        Privilege::Hypervisor => CSR_HIE,
        Privilege::Machine => CSR_MIE,
    }
}

#[verifier::when_used_as_spec(spec_ie_register)]
pub fn ie_register(p: Privilege) -> (csr: u16)
    ensures
        csr == spec_ie_register(p),
{
    match p {
        Privilege::User => CSR_UIE,
        Privilege::Supervisor => CSR_SIE,
        Privilege::Hypervisor => CSR_HIE,
        Privilege::Machine => CSR_MIE,
    }
}

/// The exception program counter register of a privilege level.
pub open spec fn spec_epc_register(p: Privilege) -> u16 {
    match p {
        Privilege::User => CSR_UEPC,
        Privilege::Supervisor => CSR_SEPC,
        Privilege::Hypervisor => CSR_HEPC,
        Privilege::Machine => CSR_MEPC,
    }
}

#[verifier::when_used_as_spec(spec_epc_register)]
pub fn epc_register(p: Privilege) -> (csr: u16)
    ensures
        csr == spec_epc_register(p),
{
    match p {
        Privilege::User => CSR_UEPC,
        Privilege::Supervisor => CSR_SEPC,
        Privilege::Hypervisor => CSR_HEPC,
        Privilege::Machine => CSR_MEPC,
    }
}

/// The trap cause register of a privilege level.
pub open spec fn spec_cause_register(p: Privilege) -> u16 {
    match p {
        Privilege::User => CSR_UCAUSE,
        Privilege::Supervisor => CSR_SCAUSE,
        Privilege::Hypervisor => CSR_HCAUSE,
        Privilege::Machine => CSR_MCAUSE,
    }
}

#[verifier::when_used_as_spec(spec_cause_register)]
pub fn cause_register(p: Privilege) -> (csr: u16)
    ensures
        csr == spec_cause_register(p),
{
    match p {
        Privilege::User => CSR_UCAUSE,
        Privilege::Supervisor => CSR_SCAUSE,
        Privilege::Hypervisor => CSR_HCAUSE,
        Privilege::Machine => CSR_MCAUSE,
    }
}

/// The trap value register of a privilege level.
pub open spec fn spec_tval_register(p: Privilege) -> u16 {
    match p {
        Privilege::User => CSR_UTVAL,
        Privilege::Supervisor => CSR_STVAL,
        Privilege::Hypervisor => CSR_HTVAL,
        Privilege::Machine => CSR_MTVAL,
    }
}

#[verifier::when_used_as_spec(spec_tval_register)]
pub fn tval_register(p: Privilege) -> (csr: u16)
    ensures
        csr == spec_tval_register(p),
{
    match p {
        Privilege::User => CSR_UTVAL,
        Privilege::Supervisor => CSR_STVAL,
        Privilege::Hypervisor => CSR_HTVAL,
        Privilege::Machine => CSR_MTVAL,
    }
}

/// The trap vector register of a privilege level.
pub open spec fn spec_tvec_register(p: Privilege) -> u16 {
    match p {
        Privilege::User => CSR_UTVEC,
        Privilege::Supervisor => CSR_STVEC,
        Privilege::Hypervisor => CSR_HTVEC,
        Privilege::Machine => CSR_MTVEC,
    }
}

#[verifier::when_used_as_spec(spec_tvec_register)]
pub fn tvec_register(p: Privilege) -> (csr: u16)
    ensures
        csr == spec_tvec_register(p),
{
    match p {
        Privilege::User => CSR_UTVEC,
        Privilege::Supervisor => CSR_STVEC,
        Privilege::Hypervisor => CSR_HTVEC,
        Privilege::Machine => CSR_MTVEC,
    }
}

/// The value of the cause register for a trap: the code, and for an
/// interrupt the most significant bit of the XLEN-bit register.
pub open spec fn spec_trap_cause(xlen: Xlen, trap_code: u8, is_interrupt: bool) -> u64 {
    if is_interrupt {
        (trap_code as u64) | (match xlen {
            Xlen::X64 => 0x8000_0000_0000_0000u64,
            Xlen::X32 => 0x0000_0000_8000_0000u64,
        })
    } else {
        trap_code as u64
    }
}

#[verifier::when_used_as_spec(spec_trap_cause)]
pub fn trap_cause(xlen: Xlen, trap_code: u8, is_interrupt: bool) -> (cause: u64)
    ensures
        cause == spec_trap_cause(xlen, trap_code, is_interrupt),
{
    if is_interrupt {
        (trap_code as u64) | (match xlen {
            Xlen::X64 => 0x8000_0000_0000_0000u64,
            Xlen::X32 => 0x0000_0000_8000_0000u64,
        })
    } else {
        trap_code as u64
    }
}

/// The privilege level that handles a trap with the given code, under the
/// machine and supervisor delegation registers `mdeleg` and `sdeleg`. The trap
/// starts at machine level; it descends to supervisor level if its bit is set
/// in `mdeleg`, and from there to user level if its bit is set in `sdeleg`.
/// The bits of the machine-level interrupts cannot be delegated, nor, by the
/// supervisor, those of the supervisor-level interrupts.
pub open spec fn spec_delegated(mdeleg: u64, sdeleg: u64, trap_code: u8) -> Privilege {
    let bit: u32 = (trap_code % 16) as u32;
    if ((mdeleg & MACHINE_DELEGABLE) >> bit) & 0x1 != 0 {
        if ((sdeleg & SUPERVISOR_DELEGABLE) >> bit) & 0x1 != 0 {
            Privilege::User
        } else {
            Privilege::Supervisor
        }
    } else {
        Privilege::Machine
    }
}

#[verifier::when_used_as_spec(spec_delegated)]
pub fn delegated(mdeleg: u64, sdeleg: u64, trap_code: u8) -> (p: Privilege)
    ensures
        p == spec_delegated(mdeleg, sdeleg, trap_code),
{
    let bit: u32 = (trap_code % 16) as u32;
    if ((mdeleg & MACHINE_DELEGABLE) >> bit) & 0x1 != 0 {
        if ((sdeleg & SUPERVISOR_DELEGABLE) >> bit) & 0x1 != 0 {
            Privilege::User
        } else {
            Privilege::Supervisor
        }
    } else {
        Privilege::Machine
    }
}

/// The bits to set and the bits to clear in the status register of the
/// level `p` that takes a trap, when the register reads `status`: the
/// interrupt enable bit of the level moves to the previous-enable bit, the
/// previous privilege goes to the previous-privilege field, and the interrupt
/// enable bit is cleared.
pub open spec fn spec_entry_status(p: Privilege, status: u64, previous: Privilege) -> (u64, u64) {
    let ie: u64 = (status >> (p.level() as u32)) & 0x1;
    match p {
        Privilege::User => (ie << 4u32, 0x11u64),
        Privilege::Supervisor => ((ie << 5u32) | ((previous.level() as u64) << 8u32), 0x122u64),
        Privilege::Hypervisor => (0u64, 0u64),
        Privilege::Machine => ((ie << 7u32) | ((previous.level() as u64) << 11u32), 0x1888u64),
    }
}

#[verifier::when_used_as_spec(spec_entry_status)]
pub fn entry_status(p: Privilege, status: u64, previous: Privilege) -> (masks: (u64, u64))
    ensures
        masks == spec_entry_status(p, status, previous),
{
    let ie: u64 = (status >> (p.level() as u32)) & 0x1;
    match p {
        Privilege::User => (ie << 4u32, 0x11u64),
        Privilege::Supervisor => ((ie << 5u32) | ((previous.level() as u64) << 8u32), 0x122u64),
        Privilege::Hypervisor => (0u64, 0u64),
        Privilege::Machine => ((ie << 7u32) | ((previous.level() as u64) << 11u32), 0x1888u64),
    }
}

/// The value that a CSR instruction writes, when the register reads `old`
/// and the source operand, a register or the 5-bit immediate, is `source`.
pub open spec fn spec_csr_operand(op: CsrOp, xlen: Xlen, old: u64, source: i64) -> u64 {
    match op {
        CsrOp::ReadWrite => zext(source, xlen),
        CsrOp::ReadWriteImm => source as u64,
        CsrOp::ReadSet => zext((old as i64) | source, xlen),
        CsrOp::ReadSetImm => zext((old as i64) | source, xlen),
        CsrOp::ReadClear => (sext(old as i64, xlen) & !source) as u64,
        CsrOp::ReadClearImm => (sext(old as i64, xlen) & !source) as u64,
    }
}

#[verifier::when_used_as_spec(spec_csr_operand)]
pub fn csr_operand(op: CsrOp, xlen: Xlen, old: u64, source: i64) -> (data: u64)
    ensures
        data == spec_csr_operand(op, xlen, old, source),
{
    match op {
        CsrOp::ReadWrite => zext(source, xlen),
        CsrOp::ReadWriteImm => source as u64,
        CsrOp::ReadSet => zext((old as i64) | source, xlen),
        CsrOp::ReadSetImm => zext((old as i64) | source, xlen),
        CsrOp::ReadClear => (sext(old as i64, xlen) & !source) as u64,
        CsrOp::ReadClearImm => (sext(old as i64, xlen) & !source) as u64,
    }
}

/// The exception that an environment call raises at a privilege level.
pub open spec fn spec_ecall_exception(p: Privilege) -> Exception {
    match p {
        Privilege::User => Exception::EnvironmentCallFromUMode,
        Privilege::Supervisor => Exception::EnvironmentCallFromSMode,
        Privilege::Hypervisor => Exception::IllegalInstruction,
        Privilege::Machine => Exception::EnvironmentCallFromMMode,
    }
}

#[verifier::when_used_as_spec(spec_ecall_exception)]
pub fn ecall_exception(p: Privilege) -> (e: Exception)
    ensures
        e == spec_ecall_exception(p),
{
    match p {
        Privilege::User => Exception::EnvironmentCallFromUMode,
        Privilege::Supervisor => Exception::EnvironmentCallFromSMode,
        Privilege::Hypervisor => Exception::IllegalInstruction,
        Privilege::Machine => Exception::EnvironmentCallFromMMode,
    }
}

/// `sstatus` after a return from a supervisor trap: SIE takes the value of
/// SPIE, SPIE is set, SPP is cleared.
pub open spec fn spec_sret_status(sstatus: u64) -> u64 {
    (sstatus & !0x122u64) | (((sstatus >> 5u32) & 0x1) << 1u32) | 0x20
}

#[verifier::when_used_as_spec(spec_sret_status)]
pub fn sret_status(sstatus: u64) -> (s: u64)
    ensures
        s == spec_sret_status(sstatus),
{
    (sstatus & !0x122u64) | (((sstatus >> 5u32) & 0x1) << 1u32) | 0x20
}

/// `mstatus` after a return from a machine trap: MIE takes the value of
/// MPIE, MPIE is set, MPP is cleared.
pub open spec fn spec_mret_status(mstatus: u64) -> u64 {
    (mstatus & !0x1888u64) | (((mstatus >> 7u32) & 0x1) << 3u32) | 0x80
}

#[verifier::when_used_as_spec(spec_mret_status)]
pub fn mret_status(mstatus: u64) -> (s: u64)
    ensures
        s == spec_mret_status(mstatus),
{
    (mstatus & !0x1888u64) | (((mstatus >> 7u32) & 0x1) << 3u32) | 0x80
}

/// The register value that a load of the given width gives for the bits
/// read: sign-extended or zero-extended to 64 bits.
pub open spec fn spec_load_value(width: Width, signed: bool, data: u64) -> i64 {
    match width {
        Width::Byte => if signed {
            data as u8 as i8 as i64
        } else {
            data as u8 as i64
        },
        Width::Half => if signed {
            data as u16 as i16 as i64
        } else {
            data as u16 as i64
        },
        Width::Word => if signed {
            data as u32 as i32 as i64
        } else {
            data as u32 as i64
        },
        Width::Double => data as i64,
    }
}

#[verifier::when_used_as_spec(spec_load_value)]
pub fn load_value(width: Width, signed: bool, data: u64) -> (v: i64)
    ensures
        v == spec_load_value(width, signed, data),
{
    match width {
        Width::Byte => if signed {
            data as u8 as i8 as i64
        } else {
            data as u8 as i64
        },
        Width::Half => if signed {
            data as u16 as i16 as i64
        } else {
            data as u16 as i64
        },
        Width::Word => if signed {
            data as u32 as i32 as i64
        } else {
            data as u32 as i64
        },
        Width::Double => data as i64,
    }
}

/// The register file after the bit `bit` of the register numbered `csr`
/// was set to the state `on` of an interrupt line.
#[verifier::opaque]
pub open spec fn csr_line(regs: Seq<u64>, csr: u16, bit: u64, on: bool) -> Seq<u64> {
    if on {
        csr_modified(regs, csr, bit, 0)
    } else {
        csr_modified(regs, csr, 0, bit)
    }
}

/// The place of an interrupt in the order of arbitration: 0 is served first.
pub open spec fn priority_rank(interrupt: Interrupt) -> nat {
    match interrupt {
        Interrupt::MachineExternal => 0,
        Interrupt::MachineSoftware => 1,
        Interrupt::MachineTimer => 2,
        Interrupt::SupervisorExternal => 3,
        Interrupt::SupervisorSoftware => 4,
        Interrupt::SupervisorTimer => 5,
        Interrupt::UserExternal => 6,
        Interrupt::UserTimer => 7,
        Interrupt::UserSoftware => 8,
    }
}

/// The state of a hart and of the machine behind it.
pub struct CpuView {
    pub cycle: u64,
    pub pc: u64,
    pub wfi: bool,
    pub xlen: Xlen,
    pub privilege: Privilege,
    pub x: Seq<i64>,
    pub f: Seq<u64>,
    pub csr: Seq<u64>,
    pub mmu: MmuView,
    pub testmode: bool,
}

impl CpuView {
    /// The register files have their sizes: 32 integer registers, 32
    /// floating-point registers and 4096 control and status registers.
    pub open spec fn wf(self) -> bool {
        self.x.len() == 32 && self.f.len() == 32 && self.csr.len() == 4096
    }

    /// The hart after reset on `machine`: machine mode, XLEN 64, the
    /// program counter at 0, every register zero but x11, which holds the
    /// address of the device tree, and `misa`.
    pub open spec fn reset(machine: Machine, testmode: bool) -> CpuView {
        CpuView {
            cycle: 0,
            pc: 0,
            wfi: false,
            xlen: Xlen::X64,
            privilege: Privilege::Machine,
            x: Seq::new(32, |i: int| 0i64).update(
                11,
                BusView::reset(machine).base_address(Device::DTB).unwrap() as i64,
            ),
            f: Seq::new(32, |i: int| 0u64),
            csr: Seq::new(4096, |i: int| 0u64).update(CSR_MISA as int, MISA_RESET),
            mmu: MmuView::reset(Xlen::X64, machine),
            testmode,
        }
    }

    /// The hart after a reset of the registers: machine mode, XLEN 64, the
    /// program counter at 0, the integer and floating-point registers zero.
    /// The control and status registers and the machine keep their state.
    pub open spec fn registers_reset(self) -> CpuView {
        CpuView {
            cycle: 0,
            pc: 0,
            wfi: false,
            x: Seq::new(32, |i: int| 0i64),
            f: Seq::new(32, |i: int| 0u64),
            ..self
        }.with_privilege(Privilege::Machine).with_xlen(Xlen::X64)
    }

    /// The privilege level that handles a trap with the given code.
    pub open spec fn next_privilege(self, trap_code: u8, is_interrupt: bool) -> Privilege {
        spec_delegated(
            csr_value(
                self.csr,
                if is_interrupt {
                    CSR_MIDELEG
                } else {
                    CSR_MEDELEG
                },
            ),
            csr_value(
                self.csr,
                if is_interrupt {
                    CSR_SIDELEG
                } else {
                    CSR_SEDELEG
                },
            ),
            trap_code,
        )
    }

    /// Whether the interrupt is pending and enabled: its bit is set in both
    /// `mip` and `mie`.
    pub open spec fn pending(self, interrupt: Interrupt) -> bool {
        csr_value(self.csr, CSR_MIE) & csr_value(self.csr, CSR_MIP) & 0xfff & interrupt.mask() != 0
    }

    /// Whether the hart takes the interrupt now. The level that handles it
    /// must not be below the current level; if it is the current level, the
    /// global interrupt enable bit of that level must be set in its status
    /// register; and the enable bit of the interrupt must be set in the
    /// interrupt enable register of the handling level.
    pub open spec fn accepts(self, interrupt: Interrupt) -> bool {
        let next = self.next_privilege(interrupt.code(), true);
        let ie = csr_value(self.csr, spec_ie_register(next));
        let status = csr_value(self.csr, spec_status_register(self.privilege));
        &&& next.level() >= self.privilege.level()
        &&& next.level() == self.privilege.level() ==> (status >> (self.privilege.level() as u32))
            & 0x1 != 0
        &&& (ie >> (interrupt.code() as u32)) & 0x1 != 0
    }

    /// Whether the interrupt is pending, enabled and taken.
    #[verifier::opaque]
    pub open spec fn candidate(self, interrupt: Interrupt) -> bool {
        self.pending(interrupt) && self.accepts(interrupt)
    }

    /// The interrupt that the hart takes now: the first candidate in the
    /// order of arbitration.
    pub open spec fn selected(self) -> Option<Interrupt> {
        if self.candidate(Interrupt::MachineExternal) {
            Some(Interrupt::MachineExternal)
        } else if self.candidate(Interrupt::MachineSoftware) {
            Some(Interrupt::MachineSoftware)
        } else if self.candidate(Interrupt::MachineTimer) {
            Some(Interrupt::MachineTimer)
        } else if self.candidate(Interrupt::SupervisorExternal) {
            Some(Interrupt::SupervisorExternal)
        } else if self.candidate(Interrupt::SupervisorSoftware) {
            Some(Interrupt::SupervisorSoftware)
        } else if self.candidate(Interrupt::SupervisorTimer) {
            Some(Interrupt::SupervisorTimer)
        } else if self.candidate(Interrupt::UserExternal) {
            Some(Interrupt::UserExternal)
        } else if self.candidate(Interrupt::UserTimer) {
            Some(Interrupt::UserTimer)
        } else if self.candidate(Interrupt::UserSoftware) {
            Some(Interrupt::UserSoftware)
        } else {
            None
        }
    }

    /// The state at another privilege level; the translation unit follows.
    pub open spec fn with_privilege(self, p: Privilege) -> CpuView {
        CpuView { privilege: p, mmu: MmuView { privilege: p, ..self.mmu }, ..self }
    }

    /// The state at another register width; the translation unit follows.
    pub open spec fn with_xlen(self, xlen: Xlen) -> CpuView {
        CpuView { xlen, mmu: MmuView { xlen, ..self.mmu }, ..self }
    }

    /// The state with the translation unit replaced.
    pub open spec fn with_mmu(self, mmu: MmuView) -> CpuView {
        CpuView { mmu, ..self }
    }

    /// The state with `value` in the integer register `rd`.
    pub open spec fn with_x(self, rd: u8, value: i64) -> CpuView {
        CpuView { x: self.x.update(rd as int, value), ..self }
    }

    /// The state with `value` in the floating-point register `rd`.
    pub open spec fn with_f(self, rd: u8, value: u64) -> CpuView {
        CpuView { f: self.f.update(rd as int, value), ..self }
    }

    /// The state with the program counter at `pc`.
    pub open spec fn with_pc(self, pc: u64) -> CpuView {
        CpuView { pc, ..self }
    }

    /// The registers of the handling level after a trap was recorded in
    /// them: the exception program counter, the cause, the trap value, and
    /// the status register with the interrupt enable stacked and the
    /// previous privilege saved.
    pub open spec fn trap_registers(
        self,
        exception_pc: u64,
        trap_code: u8,
        trap_value: u64,
        previous_privilege: Privilege,
        is_interrupt: bool,
    ) -> Seq<u64> {
        let p = self.privilege;
        let saved = csr_written(
            csr_written(
                csr_written(self.csr, spec_epc_register(p), exception_pc),
                spec_cause_register(p),
                spec_trap_cause(self.xlen, trap_code, is_interrupt),
            ),
            spec_tval_register(p),
            trap_value,
        );
        let masks = spec_entry_status(
            p,
            csr_value(saved, spec_status_register(p)),
            previous_privilege,
        );
        csr_modified(saved, spec_status_register(p), masks.0, masks.1)
    }

    /// The state after a trap was taken: the hart is at the handling level,
    /// the trap is recorded in the registers of that level, the program
    /// counter is at the trap vector of that level, and the hart no longer
    /// waits for an interrupt.
    pub open spec fn trapped(
        self,
        exception_pc: u64,
        trap_code: u8,
        trap_value: u64,
        is_interrupt: bool,
    ) -> CpuView {
        let next = self.next_privilege(trap_code, is_interrupt);
        let entered = self.with_privilege(next);
        let csr = entered.trap_registers(
            exception_pc,
            trap_code,
            trap_value,
            self.privilege,
            is_interrupt,
        );
        CpuView { csr, pc: csr_value(csr, spec_tvec_register(next)), wfi: false, ..entered }
    }

    /// The state after the exception `trap` of the instruction at `addr` was taken.
    pub open spec fn exception_taken(self, trap: Trap, addr: u64) -> CpuView {
        self.trapped(addr, trap.exception.code(), trap.value, false)
    }

    /// The state after `interrupt` was taken before the instruction at the
    /// program counter.
    pub open spec fn interrupt_taken(self, interrupt: Interrupt) -> CpuView {
        self.trapped(self.pc, interrupt.code(), self.pc, true)
    }

    /// The interrupt pending register after the external interrupt lines
    /// `irqs` and the timer and software interrupt of the machine level were
    /// copied into it.
    pub open spec fn lines_recorded(self, irqs: Seq<bool>, timer: bool, software: bool) -> Seq<u64> {
        let meip = csr_line(self.csr, CSR_MIP, CSR_IP_MEIP, irqs[3]);
        let heip = csr_line(meip, CSR_MIP, CSR_IP_HEIP, irqs[2]);
        let seip = csr_line(heip, CSR_SIP, CSR_IP_SEIP, irqs[1]);
        let ueip = csr_line(seip, CSR_UIP, CSR_IP_UEIP, irqs[0]);
        let mtip = csr_line(ueip, CSR_MIP, CSR_IP_MTIP, timer);
        csr_line(mtip, CSR_MIP, CSR_IP_MSIP, software)
    }
}

/// A RISC-V hart with its control and status registers, and the machine
/// behind its address translation unit.
pub struct Cpu {
    pub cycle: u64,
    pub pc: u64,
    pub wfi: bool,
    pub xlen: Xlen,
    pub privilege: Privilege,
    pub x: [i64; 32],
    /// The floating-point registers, as 64-bit patterns.
    pub f: [u64; 32],
    pub csr: Csr,
    pub mmu: Mmu,
    pub testmode: bool,
}

impl View for Cpu {
    type V = CpuView;

    open spec fn view(&self) -> CpuView {
        CpuView {
            cycle: self.cycle,
            pc: self.pc,
            wfi: self.wfi,
            xlen: self.xlen,
            privilege: self.privilege,
            x: self.x@,
            f: self.f@,
            csr: self.csr@,
            mmu: self.mmu@,
            testmode: self.testmode,
        }
    }
}

impl Cpu {
    /// The interrupt that the hart takes now, if any.
    pub fn check_interrupts(&mut self) -> (r: Option<Interrupt>)
        ensures
            final(self)@ == old(self)@,
            r == old(self)@.selected(),
    {
        if self.is_candidate(Interrupt::MachineExternal) {
            Some(Interrupt::MachineExternal)
        } else if self.is_candidate(Interrupt::MachineSoftware) {
            Some(Interrupt::MachineSoftware)
        } else if self.is_candidate(Interrupt::MachineTimer) {
            Some(Interrupt::MachineTimer)
        } else if self.is_candidate(Interrupt::SupervisorExternal) {
            Some(Interrupt::SupervisorExternal)
        } else if self.is_candidate(Interrupt::SupervisorSoftware) {
            Some(Interrupt::SupervisorSoftware)
        } else if self.is_candidate(Interrupt::SupervisorTimer) {
            Some(Interrupt::SupervisorTimer)
        } else if self.is_candidate(Interrupt::UserExternal) {
            Some(Interrupt::UserExternal)
        } else if self.is_candidate(Interrupt::UserTimer) {
            Some(Interrupt::UserTimer)
        } else if self.is_candidate(Interrupt::UserSoftware) {
            Some(Interrupt::UserSoftware)
        } else {
            None
        }
    }

    /// Whether `interrupt` is pending, enabled and taken now.
    pub fn is_candidate(&mut self, interrupt: Interrupt) -> (b: bool)
        ensures
            final(self)@ == old(self)@,
            b == old(self)@.candidate(interrupt),
    {
        reveal(CpuView::candidate);
        let mie: u64 = self.csr.read_direct(CSR_MIE);
        let mip: u64 = self.csr.read_direct(CSR_MIP);
        mie & mip & 0xfff & interrupt.mask() != 0 && self.select_handling_interrupt(interrupt)
    }

    /// Takes `interrupt` before the instruction at the program counter.
    pub fn interrupt_handler(&mut self, interrupt: Interrupt)
        ensures
            final(self)@ == old(self)@.interrupt_taken(interrupt),
    {
        let trap_code: u8 = interrupt.code();
        let previous_privilege: Privilege = self.privilege;
        let next_privilege: Privilege = self.get_next_privilege(trap_code, true);
        let pc: u64 = self.pc;
        self.change_privilege(next_privilege);
        self.update_csr_trap_registers(pc, trap_code, pc, previous_privilege, true);
        self.pc = self.get_trap_next_pc();
        self.wfi = false;
    }

    /// Takes the exception `trap` of the instruction at `addr`.
    pub fn catch_exception(&mut self, trap: Trap, addr: u64)
        ensures
            final(self)@ == old(self)@.exception_taken(trap, addr),
    {
        let trap_code: u8 = trap.exception.code();
        let previous_privilege: Privilege = self.privilege;
        let next_privilege: Privilege = self.get_next_privilege(trap_code, false);
        self.change_privilege(next_privilege);
        self.update_csr_trap_registers(addr, trap_code, trap.value, previous_privilege, false);
        self.pc = self.get_trap_next_pc();
        self.wfi = false;
    }

    /// Whether the hart takes `interrupt` now.
    pub fn select_handling_interrupt(&mut self, interrupt: Interrupt) -> (taken: bool)
        ensures
            final(self)@ == old(self)@,
            taken == old(self)@.accepts(interrupt),
    {
        let trap_code: u8 = interrupt.code();
        let next_privilege: Privilege = self.get_next_privilege(trap_code, true);
        let ie: u64 = self.csr.read_direct(ie_register(next_privilege));
        let status: u64 = self.csr.read_direct(status_register(self.privilege));
        let next_privilege_level: u8 = next_privilege.level();
        let privilege_level: u8 = self.privilege.level();
        if next_privilege_level < privilege_level {
            return false;
        }
        if privilege_level == next_privilege_level {
            if (status >> (privilege_level as u32)) & 0x1 == 0 {
                return false;
            }
        }
        (ie >> (trap_code as u32)) & 0x1 != 0
    }

    /// Records a trap in the registers of the current level, which is the
    /// level that handles it.
    pub fn update_csr_trap_registers(
        &mut self,
        exception_pc: u64,
        trap_code: u8,
        trap_value: u64,
        previous_privilege: Privilege,
        is_interrupt: bool,
    )
        ensures
            final(self)@ == (CpuView {
                csr: old(self)@.trap_registers(
                    exception_pc,
                    trap_code,
                    trap_value,
                    previous_privilege,
                    is_interrupt,
                ),
                ..old(self)@
            }),
    {
        let p: Privilege = self.privilege;
        self.csr.write_direct(epc_register(p), exception_pc);
        let cause: u64 = self.get_cause(trap_code, is_interrupt);
        self.csr.write_direct(cause_register(p), cause);
        self.csr.write_direct(tval_register(p), trap_value);
        let status: u64 = self.csr.read_direct(status_register(p));
        let masks: (u64, u64) = entry_status(p, status, previous_privilege);
        self.csr.read_modify_write_direct(status_register(p), masks.0, masks.1);
    }

    /// The trap vector of the current level.
    pub fn get_trap_next_pc(&mut self) -> (pc: u64)
        ensures
            final(self)@ == old(self)@,
            pc == csr_value(old(self)@.csr, spec_tvec_register(old(self)@.privilege)),
    {
        self.csr.read_direct(tvec_register(self.privilege))
    }

    pub fn get_cause(&mut self, trap_code: u8, is_interrupt: bool) -> (cause: u64)
        ensures
            final(self)@ == old(self)@,
            cause == spec_trap_cause(old(self)@.xlen, trap_code, is_interrupt),
    {
        trap_cause(self.xlen, trap_code, is_interrupt)
    }

    pub fn get_next_privilege(&mut self, trap_code: u8, is_interrupt: bool) -> (p: Privilege)
        ensures
            final(self)@ == old(self)@,
            p == old(self)@.next_privilege(trap_code, is_interrupt),
    {
        let mdeleg: u64 = self.csr.read_direct(
            if is_interrupt {
                CSR_MIDELEG
            } else {
                CSR_MEDELEG
            },
        );
        let sdeleg: u64 = self.csr.read_direct(
            if is_interrupt {
                CSR_SIDELEG
            } else {
                CSR_SEDELEG
            },
        );
        delegated(mdeleg, sdeleg, trap_code)
    }

    pub fn change_privilege(&mut self, next_privilege: Privilege)
        ensures
            final(self)@ == old(self)@.with_privilege(next_privilege),
    {
        self.privilege = next_privilege;
        self.mmu.set_privilege(&self.privilege);
    }

    /// Copies the external interrupt lines and the timer and software
    /// interrupt of the machine level into the interrupt pending register.
    pub fn tick_interrupt(&mut self, irqs: &Vec<bool>)
        requires
            irqs@.len() == 4,
        ensures
            final(self)@ == (CpuView {
                csr: old(self)@.lines_recorded(
                    irqs@,
                    old(self)@.mmu.bus.timer_pending(),
                    old(self)@.mmu.bus.software_pending(),
                ),
                ..old(self)@
            }),
    {
        let timer: bool = self.mmu.bus.is_pending_timer_interrupt(0);
        let software: bool = self.mmu.bus.is_pending_software_interrupt(0);
        self.set_line(CSR_MIP, CSR_IP_MEIP, irqs[3]);
        self.set_line(CSR_MIP, CSR_IP_HEIP, irqs[2]);
        self.set_line(CSR_SIP, CSR_IP_SEIP, irqs[1]);
        self.set_line(CSR_UIP, CSR_IP_UEIP, irqs[0]);
        self.set_line(CSR_MIP, CSR_IP_MTIP, timer);
        self.set_line(CSR_MIP, CSR_IP_MSIP, software);
    }

    /// Sets the bit `bit` of the register numbered `csr` to the state `on`
    /// of an interrupt line.
    pub fn set_line(&mut self, csr: u16, bit: u64, on: bool)
        requires
            csr < 4096,
        ensures
            final(self)@ == (CpuView { csr: csr_line(old(self)@.csr, csr, bit, on), ..old(self)@ }),
    {
        reveal(csr_line);
        if on {
            self.csr.read_modify_write_direct(csr, bit, 0);
        } else {
            self.csr.read_modify_write_direct(csr, 0, bit);
        }
    }
}

impl CpuView {
    /// The value of the integer register `r`.
    pub open spec fn reg(self, r: u8) -> i64 {
        self.x[r as int]
    }

    /// A load: the address is the register rs1 plus the immediate; the
    /// value read, extended to 64 bits, goes to the register rd.
    pub open spec fn load(self, width: Width, signed: bool, word: u32) -> (CpuView, Result<
        (),
        Trap,
    >) {
        let o = spec_parse_type_i(word);
        let (mmu, r) = self.mmu.read(width, self.reg(o.rs1).wrapping_add(o.imm) as u64);
        match r {
            Ok(data) => (
                self.with_mmu(mmu).with_x(o.rd, spec_load_value(width, signed, data)),
                Ok(()),
            ),
            Err(e) => (self.with_mmu(mmu), Err(e)),
        }
    }

    /// A floating-point load: a word is sign-extended to 64 bits, a
    /// doubleword is taken as it is.
    pub open spec fn float_load(self, width: Width, word: u32) -> (CpuView, Result<(), Trap>) {
        let o = spec_parse_type_i(word);
        let (mmu, r) = self.mmu.read(width, self.reg(o.rs1).wrapping_add(o.imm) as u64);
        match r {
            Ok(data) => (
                self.with_mmu(mmu).with_f(
                    o.rd,
                    spec_load_value(width, true, data) as u64,
                ),
                Ok(()),
            ),
            Err(e) => (self.with_mmu(mmu), Err(e)),
        }
    }

    /// A store: the address is the register rs1 plus the immediate; the low
    /// bits of the register rs2 are written.
    pub open spec fn store(self, width: Width, word: u32) -> (CpuView, Result<(), Trap>) {
        let o = spec_parse_type_s(word);
        let (mmu, r) = self.mmu.write(
            width,
            self.reg(o.rs1).wrapping_add(o.imm) as u64,
            self.reg(o.rs2) as u64,
        );
        (self.with_mmu(mmu), r)
    }

    /// A floating-point store: the low bits of the floating-point register
    /// rs2 are written.
    pub open spec fn float_store(self, width: Width, word: u32) -> (CpuView, Result<(), Trap>) {
        let o = spec_parse_type_s(word);
        let (mmu, r) = self.mmu.write(
            width,
            self.reg(o.rs1).wrapping_add(o.imm) as u64,
            self.f[o.rs2 as int],
        );
        (self.with_mmu(mmu), r)
    }

    /// An operation on the register rs1 and the immediate.
    pub open spec fn op_imm(self, op: AluOp, word: u32) -> CpuView {
        let o = spec_parse_type_i(word);
        self.with_x(o.rd, spec_alu(op, self.xlen, self.reg(o.rs1), o.imm))
    }

    /// An operation on the registers rs1 and rs2.
    pub open spec fn op_reg(self, op: AluOp, word: u32) -> CpuView {
        let o = spec_parse_type_r(word);
        self.with_x(o.rd, spec_alu(op, self.xlen, self.reg(o.rs1), self.reg(o.rs2)))
    }

    /// LUI: the upper immediate goes to the register rd.
    pub open spec fn lui(self, word: u32) -> CpuView {
        let o = spec_parse_type_u(word);
        self.with_x(o.rd, o.imm as i64)
    }

    /// AUIPC: the address of the instruction plus the upper immediate goes
    /// to the register rd.
    pub open spec fn auipc(self, addr: u64, word: u32) -> CpuView {
        let o = spec_parse_type_u(word);
        self.with_x(o.rd, spec_sext(addr.wrapping_add(o.imm) as i64, self.xlen))
    }

    /// JAL: the address of the next instruction goes to the register rd,
    /// and the program counter to the address of the instruction plus the
    /// offset.
    pub open spec fn jal(self, addr: u64, word: u32) -> CpuView {
        let o = spec_parse_type_j(word);
        self.with_x(o.rd, spec_sext(self.pc as i64, self.xlen)).with_pc(addr.wrapping_add(o.imm))
    }

    /// JALR: the address of the next instruction goes to the register rd,
    /// and the program counter to the register rs1 plus the immediate.
    pub open spec fn jalr(self, word: u32) -> CpuView {
        let o = spec_parse_type_i(word);
        self.with_x(o.rd, spec_sext(self.pc as i64, self.xlen)).with_pc(
            (self.reg(o.rs1) as u64).wrapping_add(o.imm as u64),
        )
    }

    /// A conditional branch: where it is taken, the program counter goes to
    /// the address of the instruction plus the offset.
    pub open spec fn branch(self, op: BranchOp, addr: u64, word: u32) -> CpuView {
        let o = spec_parse_type_b(word);
        if spec_branch_taken(op, self.xlen, self.reg(o.rs1), self.reg(o.rs2)) {
            self.with_pc(addr.wrapping_add(o.imm))
        } else {
            self
        }
    }

    /// A CSR instruction of the instruction at `addr`. Below the privilege
    /// of the register it is an illegal instruction. Otherwise the register
    /// is read and written, a write to the address translation register
    /// reaches the translation unit, and what was read goes to the register
    /// rd.
    pub open spec fn csr_access(self, op: CsrOp, addr: u64, word: u32) -> (CpuView, Result<
        (),
        Trap,
    >) {
        let o = spec_parse_type_csr(word);
        if csr_privilege(o.csr) > self.privilege.level() {
            (self, Err(Trap { exception: Exception::IllegalInstruction, value: addr }))
        } else {
            let old = csr_value(self.csr, o.csr);
            let source = match op {
                CsrOp::ReadWrite => self.reg(o.rs1),
                CsrOp::ReadSet => self.reg(o.rs1),
                CsrOp::ReadClear => self.reg(o.rs1),
                _ => o.rs1 as i64,
            };
            let data = spec_csr_operand(op, self.xlen, old, source);
            (
                CpuView {
                    csr: csr_written(self.csr, o.csr, data),
                    mmu: if o.csr == CSR_SPTBR {
                        self.mmu.with_satp(data)
                    } else {
                        self.mmu
                    },
                    ..self
                }.with_x(o.rd, spec_sext(old as i64, self.xlen)),
                Ok(()),
            )
        }
    }

    /// LR: a load from the address in the register rs1, whose physical
    /// address is then reserved.
    pub open spec fn load_reserved(self, width: Width, word: u32) -> (CpuView, Result<(), Trap>) {
        let o = spec_parse_type_r(word);
        let addr = self.reg(o.rs1) as u64;
        let (mmu, r) = self.mmu.read(width, addr);
        match r {
            Ok(data) => (
                self.with_mmu(mmu.reserving(addr)).with_x(
                    o.rd,
                    spec_load_value(width, true, data),
                ),
                Ok(()),
            ),
            Err(e) => (self.with_mmu(mmu), Err(e)),
        }
    }

    /// SC: the address in the register rs1 is translated as for a store,
    /// which may fail with a store page fault. Where the physical address
    /// is reserved, the register rs2 is stored there, the reservation is
    /// given up and the register rd is 0; where it is not reserved, nothing
    /// is stored and rd is 1.
    pub open spec fn store_conditional(self, width: Width, word: u32) -> (CpuView, Result<
        (),
        Trap,
    >) {
        let o = spec_parse_type_r(word);
        let addr = self.reg(o.rs1) as u64;
        let (bus, translated) = self.mmu.translate(
            self.mmu.effective(addr),
            MemoryAccessType::Write,
        );
        let looked_up = self.mmu.with_bus(bus);
        match translated {
            Err(_) => (
                self.with_mmu(looked_up),
                Err(self.mmu.fault(addr, MemoryAccessType::Write)),
            ),
            Ok(p_addr) => if looked_up.reserved.contains(p_addr) {
                let (mmu, r) = looked_up.write(width, addr, self.reg(o.rs2) as u64);
                match r {
                    Ok(_) => (
                        self.with_mmu(mmu.with_reserve(p_addr, false)).with_x(o.rd, 0),
                        Ok(()),
                    ),
                    Err(e) => (self.with_mmu(mmu), Err(e)),
                }
            } else {
                (self.with_mmu(looked_up).with_x(o.rd, 1), Ok(()))
            },
        }
    }

    /// An AMO: the value at the address in the register rs1 is read, the
    /// result of the operation on it and the register rs2 is written back,
    /// and the value read, sign-extended, goes to the register rd.
    pub open spec fn amo(self, op: AmoOp, width: Width, word: u32) -> (CpuView, Result<
        (),
        Trap,
    >) {
        let o = spec_parse_type_r(word);
        let addr = self.reg(o.rs1) as u64;
        let (mmu1, r) = self.mmu.read(width, addr);
        match r {
            Err(e) => (self.with_mmu(mmu1), Err(e)),
            Ok(t) => {
                let new = if width == Width::Double {
                    spec_amo_double(op, t, self.reg(o.rs2))
                } else {
                    spec_amo_word(op, t as u32, self.reg(o.rs2)) as u64
                };
                let (mmu2, w) = mmu1.write(width, addr, new);
                match w {
                    Err(e) => (self.with_mmu(mmu2), Err(e)),
                    Ok(_) => (
                        self.with_mmu(mmu2).with_x(o.rd, spec_load_value(width, true, t)),
                        Ok(()),
                    ),
                }
            },
        }
    }

    /// SRET of the instruction at `addr`: below supervisor level it is an
    /// illegal instruction. Otherwise the program counter returns to
    /// `sepc`, the interrupt enable is restored in `sstatus`, and the hart
    /// returns to the level that SPP names.
    pub open spec fn sret(self, addr: u64) -> (CpuView, Result<(), Trap>) {
        if csr_privilege(CSR_SEPC) > self.privilege.level() {
            (self, Err(Trap { exception: Exception::IllegalInstruction, value: addr }))
        } else {
            let sstatus = csr_value(self.csr, CSR_SSTATUS);
            (
                CpuView {
                    pc: csr_value(self.csr, CSR_SEPC),
                    csr: csr_written(self.csr, CSR_SSTATUS, spec_sret_status(sstatus)),
                    ..self
                }.with_privilege(
                    if (sstatus >> 8u32) & 0x1 == 0 {
                        Privilege::User
                    } else {
                        Privilege::Supervisor
                    },
                ),
                Ok(()),
            )
        }
    }

    /// MRET of the instruction at `addr`: below machine level it is an
    /// illegal instruction. Otherwise the program counter returns to
    /// `mepc`, the interrupt enable is restored in `mstatus`, and the hart
    /// returns to the level that MPP names.
    pub open spec fn mret(self, addr: u64) -> (CpuView, Result<(), Trap>) {
        if csr_privilege(CSR_MEPC) > self.privilege.level() {
            (self, Err(Trap { exception: Exception::IllegalInstruction, value: addr }))
        } else {
            let mstatus = csr_value(self.csr, CSR_MSTATUS);
            (
                CpuView {
                    pc: csr_value(self.csr, CSR_MEPC),
                    csr: csr_written(self.csr, CSR_MSTATUS, spec_mret_status(mstatus)),
                    ..self
                }.with_privilege(Privilege::spec_from_level(mstatus >> 11u32)),
                Ok(()),
            )
        }
    }

    /// FMV.W.X: the low 32 bits of the register rs1 go to the
    /// floating-point register rd.
    pub open spec fn fmv_w_x(self, word: u32) -> CpuView {
        let o = spec_parse_type_r(word);
        self.with_f(o.rd, self.reg(o.rs1) as u32 as u64)
    }

    /// The effect of the instruction `instruction`, encoded by `word`, at
    /// the address `addr`, on a state whose program counter is already at
    /// the next instruction.
    pub open spec fn execute(self, instruction: Instruction, addr: u64, word: u32) -> (
        CpuView,
        Result<(), Trap>,
    ) {
        match instruction {
            Instruction::Load { width, signed } => self.load(width, signed, word),
            Instruction::Store { width } => self.store(width, word),
            Instruction::FloatLoad { width } => self.float_load(width, word),
            Instruction::FloatStore { width } => self.float_store(width, word),
            Instruction::Fence => (self, Ok(())),
            Instruction::OpImm { alu } => (self.op_imm(alu, word), Ok(())),
            Instruction::Op { alu } => (self.op_reg(alu, word), Ok(())),
            Instruction::Lui => (self.lui(word), Ok(())),
            Instruction::Auipc => (self.auipc(addr, word), Ok(())),
            Instruction::Jal => (self.jal(addr, word), Ok(())),
            Instruction::Jalr => (self.jalr(word), Ok(())),
            Instruction::Branch { branch } => (self.branch(branch, addr, word), Ok(())),
            Instruction::Csr { csr } => self.csr_access(csr, addr, word),
            Instruction::LoadReserved { width } => self.load_reserved(width, word),
            Instruction::StoreConditional { width } => self.store_conditional(width, word),
            Instruction::Amo { amo, width } => self.amo(amo, width, word),
            Instruction::Ecall => (
                self,
                Err(Trap { exception: spec_ecall_exception(self.privilege), value: addr }),
            ),
            Instruction::Ebreak => (
                self,
                Err(Trap { exception: Exception::Breakpoint, value: addr }),
            ),
            Instruction::Sret => self.sret(addr),
            Instruction::Mret => self.mret(addr),
            Instruction::Wfi => (CpuView { wfi: true, ..self }, Ok(())),
            Instruction::SfenceVma => (self, Ok(())),
            Instruction::FmvWX => (self.fmv_w_x(word), Ok(())),
        }
    }

    /// The effect of the instruction word `word` at the address `addr`: a
    /// word that encodes no instruction is an illegal instruction.
    pub open spec fn retire(self, addr: u64, word: u32) -> (CpuView, Result<(), Trap>) {
        match spec_decode(word) {
            Some(instruction) => self.execute(instruction, addr, word),
            None => (self, Err(Trap { exception: Exception::IllegalInstruction, value: addr })),
        }
    }

    /// The fetch of the instruction at the program counter: the state after
    /// it, with the program counter at the next instruction, and the
    /// instruction as a 32-bit word. A word whose low two bits are not both
    /// set is a 16-bit instruction: the program counter advances by 2, and
    /// the word is the expansion of its low half, or an illegal instruction
    /// where that is a reserved encoding.
    pub open spec fn fetch(self) -> (CpuView, Result<u32, Trap>) {
        let (mmu, r) = self.mmu.fetch32(self.pc);
        match r {
            Err(e) => (self.with_mmu(mmu), Err(e)),
            Ok(word) => if word & 0x3 == 0x3 {
                (self.with_mmu(mmu).with_pc(self.pc.wrapping_add(4)), Ok(word))
            } else {
                (
                    self.with_mmu(mmu).with_pc(self.pc.wrapping_add(2)),
                    match spec_decompress(self.xlen, (word & 0xffff) as u16) {
                        Ok(expanded) => Ok(expanded),
                        Err(_) => Err(
                            Trap { exception: Exception::IllegalInstruction, value: self.pc },
                        ),
                    },
                )
            },
        }
    }

    /// The fetch and the execution of the instruction at the program counter.
    pub open spec fn tick_execute(self) -> (CpuView, Result<(), Trap>) {
        let (fetched, r) = self.fetch();
        match r {
            Err(e) => (fetched, Err(e)),
            Ok(word) => fetched.retire(self.pc, word),
        }
    }

    /// The state after the hart's part of a tick: an interrupt that is due
    /// is taken; unless the hart waits for an interrupt, one instruction is
    /// executed, and an exception that it raises is taken; the register x0
    /// is zero.
    pub open spec fn after_instruction(self) -> CpuView {
        let arbitrated = match self.selected() {
            Some(interrupt) => self.interrupt_taken(interrupt),
            None => self,
        };
        let executed = if arbitrated.wfi {
            arbitrated
        } else {
            match arbitrated.tick_execute().1 {
                Ok(_) => arbitrated.tick_execute().0,
                Err(e) => arbitrated.tick_execute().0.exception_taken(e, arbitrated.pc),
            }
        };
        executed.with_x(0, 0)
    }

    /// The state after the machine's part of a tick, in which the devices
    /// have brought the bus to the state `bus` and raised the interrupt
    /// lines `irqs`: the lines and the timer and software interrupts are
    /// recorded in the interrupt pending register, and the cycle and time
    /// counters advance.
    pub open spec fn finish(self, bus: BusView, irqs: Seq<bool>) -> CpuView {
        let recorded = self.lines_recorded(irqs, bus.timer_pending(), bus.software_pending());
        let counted = csr_written(recorded, CSR_CYCLE, self.cycle.wrapping_add(1));
        CpuView {
            mmu: self.mmu.with_bus(bus),
            cycle: self.cycle.wrapping_add(1),
            csr: counted.update(CSR_TIME as int, counted[CSR_TIME as int].wrapping_add(1)),
            ..self
        }
    }

    /// Whether `next` is the state after one tick: the hart has made its
    /// step, the devices theirs, for some answers of the consoles, and the
    /// outcome is recorded.
    #[verifier::opaque]
    pub open spec fn ticked(self, next: CpuView) -> bool {
        exists|irqs: Seq<bool>| #[trigger]
            self.after_instruction().mmu.bus.ticked(next.mmu.bus, irqs) && next
                == self.after_instruction().finish(next.mmu.bus, irqs)
    }
}

impl Cpu {
    /// A hart after reset on `machine`, with `console` behind the
    /// machine's first UART: machine mode, XLEN 64, the program counter at 0,
    /// and the address of the device tree in the register x11.
    pub fn new(machine_: Machine, console: Box<dyn Console>, testmode_: bool) -> (cpu: Self)
        ensures
            cpu@ == CpuView::reset(machine_, testmode_),
    {
        let mut cpu = Cpu {
            cycle: 0,
            pc: 0,
            wfi: false,
            xlen: Xlen::X64,
            privilege: Privilege::Machine,
            x: [0i64; 32],
            f: [0u64; 32],
            csr: Csr::new(),
            mmu: Mmu::new(Xlen::X64, machine_, console),
            testmode: testmode_,
        };
        let dtb: u64 = cpu.mmu.bus.get_base_address(Device::DTB);
        cpu.x[11] = dtb as i64;
        assert(cpu@.x =~= CpuView::reset(machine_, testmode_).x);
        assert(cpu@.f =~= CpuView::reset(machine_, testmode_).f);
        assert(cpu@.csr =~= CpuView::reset(machine_, testmode_).csr);
        cpu
    }

    /// Resets the hart: machine mode, XLEN 64, all registers zero. The
    /// control and status registers and the machine keep their state.
    pub fn reset(&mut self)
        ensures
            final(self)@ == old(self)@.registers_reset(),
    {
        self.pc = 0;
        self.cycle = 0;
        self.wfi = false;
        self.x = [0i64; 32];
        self.f = [0u64; 32];
        self.change_privilege(Privilege::Machine);
        self.set_xlen(Xlen::X64);
        assert(self.x@ =~= Seq::new(32, |i: int| 0i64));
        assert(self.f@ =~= Seq::new(32, |i: int| 0u64));
    }

    pub fn set_pc(&mut self, pc: u64)
        ensures
            final(self)@ == old(self)@.with_pc(pc),
    {
        self.pc = pc;
    }

    pub fn set_xlen(&mut self, xlen: Xlen)
        ensures
            final(self)@ == old(self)@.with_xlen(xlen),
    {
        self.xlen = xlen;
        self.mmu.set_xlen(&self.xlen);
    }

    /// Advances the hart and the machine by one tick.
    pub fn tick(&mut self)
        ensures
            old(self)@.ticked(final(self)@),
            final(self)@.x[0] == 0,
    {
        reveal(CpuView::ticked);
        match self.check_interrupts() {
            Some(interrupt) => self.interrupt_handler(interrupt),
            None => {},
        }
        if !self.wfi {
            let instruction_addr: u64 = self.pc;
            match self.tick_execute() {
                Ok(_) => {},
                Err(e) => self.catch_exception(e, instruction_addr),
            }
        }
        self.x[0] = 0;
        assert(self@ == old(self)@.after_instruction());
        let irqs: Vec<bool> = self.mmu.bus.tick();
        self.tick_interrupt(&irqs);
        self.cycle = self.cycle.wrapping_add(1);
        self.csr.write_direct(CSR_CYCLE, self.cycle);
        self.csr.tick();
        assert(self@ == old(self)@.after_instruction().finish(self@.mmu.bus, irqs@));
    }

    /// Fetches and executes the instruction at the program counter.
    pub fn tick_execute(&mut self) -> (r: Result<(), Trap>)
        ensures
            (final(self)@, r) == old(self)@.tick_execute(),
    {
        let instruction_addr: u64 = self.pc;
        let word: u32 = match self.fetch() {
            Ok(word) => word,
            Err(e) => {
                return Err(e);
            },
        };
        match self.decode(word) {
            Some(instruction) => self.execute(instruction, instruction_addr, word),
            None => Err(Trap { exception: Exception::IllegalInstruction, value: instruction_addr }),
        }
    }

    /// Fetches the instruction at the program counter and advances the
    /// program counter past it.
    pub fn fetch(&mut self) -> (r: Result<u32, Trap>)
        ensures
            (final(self)@, r) == old(self)@.fetch(),
    {
        let pc: u64 = self.pc;
        let fetch_word: u32 = match self.mmu.fetch32(pc) {
            Ok(word) => word,
            Err(e) => {
                return Err(e);
            },
        };
        if fetch_word & 0x3 == 0x3 {
            self.pc = pc.wrapping_add(4);
            Ok(fetch_word)
        } else {
            self.pc = pc.wrapping_add(2);
            match decompress(self.xlen, (fetch_word & 0xffff) as u16) {
                Ok(word) => Ok(word),
                Err(_) => Err(Trap { exception: Exception::IllegalInstruction, value: pc }),
            }
        }
    }

    pub fn decode(&mut self, word: u32) -> (r: Option<Instruction>)
        ensures
            final(self)@ == old(self)@,
            r == spec_decode(word),
    {
        decode(word)
    }

    /// Executes `instruction`, encoded by `word`, of the address `addr`.
    pub fn execute(&mut self, instruction: Instruction, addr: u64, word: u32) -> (r: Result<
        (),
        Trap,
    >)
        ensures
            (final(self)@, r) == old(self)@.execute(instruction, addr, word),
    {
        match instruction {
            Instruction::Load { width, signed } => self.load(width, signed, word),
            Instruction::Store { width } => self.store(width, word),
            Instruction::FloatLoad { width } => self.float_load(width, word),
            Instruction::FloatStore { width } => self.float_store(width, word),
            Instruction::Fence => Ok(()),
            Instruction::OpImm { alu } => {
                self.op_imm(alu, word);
                Ok(())
            },
            Instruction::Op { alu } => {
                self.op_reg(alu, word);
                Ok(())
            },
            Instruction::Lui => {
                self.lui(word);
                Ok(())
            },
            Instruction::Auipc => {
                self.auipc(addr, word);
                Ok(())
            },
            Instruction::Jal => {
                self.jal(addr, word);
                Ok(())
            },
            Instruction::Jalr => {
                self.jalr(word);
                Ok(())
            },
            Instruction::Branch { branch } => {
                self.branch(branch, addr, word);
                Ok(())
            },
            Instruction::Csr { csr } => self.csr_access(csr, addr, word),
            Instruction::LoadReserved { width } => self.load_reserved(width, word),
            Instruction::StoreConditional { width } => self.store_conditional(width, word),
            Instruction::Amo { amo, width } => self.amo(amo, width, word),
            Instruction::Ecall => Err(
                Trap { exception: ecall_exception(self.privilege), value: addr },
            ),
            Instruction::Ebreak => Err(Trap { exception: Exception::Breakpoint, value: addr }),
            Instruction::Sret => self.sret(addr),
            Instruction::Mret => self.mret(addr),
            Instruction::Wfi => {
                self.wfi = true;
                Ok(())
            },
            Instruction::SfenceVma => Ok(()),
            Instruction::FmvWX => {
                self.fmv_w_x(word);
                Ok(())
            },
        }
    }

    pub fn load(&mut self, width: Width, signed: bool, word: u32) -> (r: Result<(), Trap>)
        ensures
            (final(self)@, r) == old(self)@.load(width, signed, word),
    {
        let o = parse_type_i(word);
        let addr: u64 = self.x[o.rs1 as usize].wrapping_add(o.imm) as u64;
        match self.mmu.read_width(width, addr) {
            Ok(data) => {
                self.x[o.rd as usize] = load_value(width, signed, data);
                Ok(())
            },
            Err(e) => Err(e),
        }
    }

    pub fn float_load(&mut self, width: Width, word: u32) -> (r: Result<(), Trap>)
        ensures
            (final(self)@, r) == old(self)@.float_load(width, word),
    {
        let o = parse_type_i(word);
        let addr: u64 = self.x[o.rs1 as usize].wrapping_add(o.imm) as u64;
        match self.mmu.read_width(width, addr) {
            Ok(data) => {
                self.f[o.rd as usize] = load_value(width, true, data) as u64;
                Ok(())
            },
            Err(e) => Err(e),
        }
    }

    pub fn store(&mut self, width: Width, word: u32) -> (r: Result<(), Trap>)
        ensures
            (final(self)@, r) == old(self)@.store(width, word),
    {
        let o = parse_type_s(word);
        let addr: u64 = self.x[o.rs1 as usize].wrapping_add(o.imm) as u64;
        let data: u64 = self.x[o.rs2 as usize] as u64;
        self.mmu.write_width(width, addr, data)
    }

    pub fn float_store(&mut self, width: Width, word: u32) -> (r: Result<(), Trap>)
        ensures
            (final(self)@, r) == old(self)@.float_store(width, word),
    {
        let o = parse_type_s(word);
        let addr: u64 = self.x[o.rs1 as usize].wrapping_add(o.imm) as u64;
        let data: u64 = self.f[o.rs2 as usize];
        self.mmu.write_width(width, addr, data)
    }

    pub fn op_imm(&mut self, op: AluOp, word: u32)
        ensures
            final(self)@ == old(self)@.op_imm(op, word),
    {
        let o = parse_type_i(word);
        self.x[o.rd as usize] = alu(op, self.xlen, self.x[o.rs1 as usize], o.imm);
    }

    pub fn op_reg(&mut self, op: AluOp, word: u32)
        ensures
            final(self)@ == old(self)@.op_reg(op, word),
    {
        let o = parse_type_r(word);
        self.x[o.rd as usize] = alu(
            op,
            self.xlen,
            self.x[o.rs1 as usize],
            self.x[o.rs2 as usize],
        );
    }

    pub fn lui(&mut self, word: u32)
        ensures
            final(self)@ == old(self)@.lui(word),
    {
        let o = parse_type_u(word);
        self.x[o.rd as usize] = o.imm as i64;
    }

    pub fn auipc(&mut self, addr: u64, word: u32)
        ensures
            final(self)@ == old(self)@.auipc(addr, word),
    {
        let o = parse_type_u(word);
        self.x[o.rd as usize] = sext(addr.wrapping_add(o.imm) as i64, self.xlen);
    }

    pub fn jal(&mut self, addr: u64, word: u32)
        ensures
            final(self)@ == old(self)@.jal(addr, word),
    {
        let o = parse_type_j(word);
        self.x[o.rd as usize] = sext(self.pc as i64, self.xlen);
        self.pc = addr.wrapping_add(o.imm);
    }

    pub fn jalr(&mut self, word: u32)
        ensures
            final(self)@ == old(self)@.jalr(word),
    {
        let o = parse_type_i(word);
        let t: i64 = sext(self.pc as i64, self.xlen);
        self.pc = (self.x[o.rs1 as usize] as u64).wrapping_add(o.imm as u64);
        self.x[o.rd as usize] = t;
    }

    pub fn branch(&mut self, op: BranchOp, addr: u64, word: u32)
        ensures
            final(self)@ == old(self)@.branch(op, addr, word),
    {
        let o = parse_type_b(word);
        if branch_taken(op, self.xlen, self.x[o.rs1 as usize], self.x[o.rs2 as usize]) {
            self.pc = addr.wrapping_add(o.imm);
        }
    }

    pub fn csr_access(&mut self, op: CsrOp, addr: u64, word: u32) -> (r: Result<(), Trap>)
        ensures
            (final(self)@, r) == old(self)@.csr_access(op, addr, word),
    {
        let o = parse_type_csr(word);
        let privilege: Privilege = self.privilege;
        let old: u64 = match self.csr.read(o.csr, addr, &privilege) {
            Ok(data) => data,
            Err(e) => {
                return Err(e);
            },
        };
        let source: i64 = match op {
            CsrOp::ReadWrite => self.x[o.rs1 as usize],
            CsrOp::ReadSet => self.x[o.rs1 as usize],
            CsrOp::ReadClear => self.x[o.rs1 as usize],
            _ => o.rs1 as i64,
        };
        let data: u64 = csr_operand(op, self.xlen, old, source);
        match self.csr.write(o.csr, data, addr, &privilege) {
            Ok(need_update_mmu_addressing_mode) => {
                if need_update_mmu_addressing_mode {
                    self.mmu.update_addressing_mode(data);
                }
                self.x[o.rd as usize] = sext(old as i64, self.xlen);
                Ok(())
            },
            Err(e) => Err(e),
        }
    }

    pub fn load_reserved(&mut self, width: Width, word: u32) -> (r: Result<(), Trap>)
        ensures
            (final(self)@, r) == old(self)@.load_reserved(width, word),
    {
        let o = parse_type_r(word);
        let addr: u64 = self.x[o.rs1 as usize] as u64;
        match self.mmu.read_width(width, addr) {
            Ok(data) => {
                self.x[o.rd as usize] = load_value(width, true, data);
                self.mmu.reserve(addr);
                Ok(())
            },
            Err(e) => Err(e),
        }
    }

    pub fn store_conditional(&mut self, width: Width, word: u32) -> (r: Result<(), Trap>)
        ensures
            (final(self)@, r) == old(self)@.store_conditional(width, word),
    {
        let o = parse_type_r(word);
        let addr: u64 = self.x[o.rs1 as usize] as u64;
        let data: u64 = self.x[o.rs2 as usize] as u64;
        let ev_addr: u64 = self.mmu.to_effective_address(addr);
        let p_addr: u64 = match self.mmu.to_physical_address(ev_addr, MemoryAccessType::Write) {
            Ok(p_addr) => p_addr,
            Err(_) => {
                return Err(Trap { exception: Exception::StorePageFault, value: ev_addr });
            },
        };
        if self.mmu.is_address_reserved(p_addr) {
            match self.mmu.write_width(width, addr, data) {
                Ok(_) => {
                    self.mmu.set_address_reserve(p_addr, false);
                    self.x[o.rd as usize] = 0;
                    Ok(())
                },
                Err(e) => Err(e),
            }
        } else {
            self.x[o.rd as usize] = 1;
            Ok(())
        }
    }

    pub fn amo(&mut self, op: AmoOp, width: Width, word: u32) -> (r: Result<(), Trap>)
        ensures
            (final(self)@, r) == old(self)@.amo(op, width, word),
    {
        let o = parse_type_r(word);
        let addr: u64 = self.x[o.rs1 as usize] as u64;
        let x: i64 = self.x[o.rs2 as usize];
        let t: u64 = match self.mmu.read_width(width, addr) {
            Ok(data) => data,
            Err(e) => {
                return Err(e);
            },
        };
        let new: u64 = match width {
            Width::Double => amo_double(op, t, x),
            _ => amo_word(op, t as u32, x) as u64,
        };
        match self.mmu.write_width(width, addr, new) {
            Ok(_) => {
                self.x[o.rd as usize] = load_value(width, true, t);
                Ok(())
            },
            Err(e) => Err(e),
        }
    }

    pub fn sret(&mut self, addr: u64) -> (r: Result<(), Trap>)
        ensures
            (final(self)@, r) == old(self)@.sret(addr),
    {
        let privilege: Privilege = self.privilege;
        let pc: u64 = match self.csr.read(CSR_SEPC, addr, &privilege) {
            Ok(data) => data,
            Err(e) => {
                return Err(e);
            },
        };
        self.pc = pc;
        let sstatus: u64 = self.csr.read_direct(CSR_SSTATUS);
        self.csr.write_direct(CSR_SSTATUS, sret_status(sstatus));
        self.privilege = if (sstatus >> 8u32) & 0x1 == 0 {
            Privilege::User
        } else {
            Privilege::Supervisor
        };
        self.mmu.set_privilege(&self.privilege);
        Ok(())
    }

    pub fn mret(&mut self, addr: u64) -> (r: Result<(), Trap>)
        ensures
            (final(self)@, r) == old(self)@.mret(addr),
    {
        let privilege: Privilege = self.privilege;
        let pc: u64 = match self.csr.read(CSR_MEPC, addr, &privilege) {
            Ok(data) => data,
            Err(e) => {
                return Err(e);
            },
        };
        self.pc = pc;
        let mstatus: u64 = self.csr.read_direct(CSR_MSTATUS);
        self.csr.write_direct(CSR_MSTATUS, mret_status(mstatus));
        self.privilege = Privilege::from_level(mstatus >> 11u32);
        self.mmu.set_privilege(&self.privilege);
        Ok(())
    }

    pub fn fmv_w_x(&mut self, word: u32)
        ensures
            final(self)@ == old(self)@.fmv_w_x(word),
    {
        let o = parse_type_r(word);
        self.f[o.rd as usize] = self.x[o.rs1 as usize] as u32 as u64;
    }
}

} // verus!
