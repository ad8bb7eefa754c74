use vstd::prelude::*;

use crate::bus::bus::{Bus, Device};
use crate::console::Console;
use crate::cpu::cpu::{Cpu, CpuView, Xlen};
use crate::cpu::mmu::MmuView;
use crate::elf_loader::{
    EMachine, EiClass, ElfHeader, ElfLoader, ProgramHeader, SectionHeader, ShType,
};
use crate::machine::Machine;

verus! {

/// Why a program could not be loaded.
#[derive(Clone, Copy, Debug, PartialEq, Eq, Structural)]
pub enum LoadError {
    /// The data does not begin with the magic number of an ELF file.
    NotElf,
    /// The file header is cut short or holds a value that is not known.
    BadHeader,
    /// The file is not for a RISC-V machine.
    NotRiscv,
    /// The file is neither a 32-bit nor a 64-bit file.
    BadClass,
    /// The section header table cannot be read.
    BadSections,
    /// The program header table cannot be read.
    BadSegments,
    /// A section reaches beyond the end of the file.
    Truncated,
    /// A byte of a section could not be written to memory.
    Fault,
}

/// How a test program ended: `Ok(1)` for a pass, `Err(n)` for the failure
/// that the program reported as `n`.
pub type Verdict = Result<u32, u32>;

/// The index of the first of `programs`, from `from` on, whose virtual
/// address is `vaddr`; the number of program headers if there is none.
pub open spec fn first_segment(programs: Seq<ProgramHeader>, vaddr: u64, from: int) -> int
    decreases programs.len() - from,
{
    if from < 0 || from >= programs.len() {
        programs.len() as int
    } else if programs[from].p_vaddr == vaddr {
        from
    } else {
        first_segment(programs, vaddr, from + 1)
    }
}

/// Where a section goes and how many bytes of it: the physical address and
/// the file size of the first program header whose virtual address is the
/// section's address, or the section's own address and size if there is no
/// such program header.
pub open spec fn placement(section: SectionHeader, programs: Seq<ProgramHeader>) -> (u64, u64) {
    let k = first_segment(programs, section.sh_addr, 0);
    if k < programs.len() {
        (programs[k].p_paddr, programs[k].p_filesz)
    } else {
        (section.sh_addr, section.sh_size)
    }
}

/// Whether a section is loaded: it holds program data, its address is not
/// below `target`, and it has a place in the file.
pub open spec fn is_loaded(section: SectionHeader, target: u64) -> bool {
    section.sh_type == ShType::Progbits && section.sh_addr >= target && section.sh_offset > 0
}

/// The translation unit after the `n` bytes of `file` from `offset` on
/// were written, one by one, to the addresses from `p_addr` on. A byte
/// beyond the end of the file and a byte that cannot be written end the
/// copy with an error; the bytes before it stay written.
pub open spec fn copied(mmu: MmuView, file: Seq<u8>, offset: u64, p_addr: u64, n: nat) -> (
    MmuView,
    Result<(), LoadError>,
)
    decreases n,
{
    if n == 0 {
        (mmu, Ok(()))
    } else {
        let (m1, before) = copied(mmu, file, offset, p_addr, (n - 1) as nat);
        match before {
            Err(e) => (m1, Err(e)),
            Ok(_) => if offset + (n - 1) >= file.len() {
                (m1, Err(LoadError::Truncated))
            } else {
                (
                    m1.write8(p_addr.wrapping_add((n - 1) as u64), file[offset + (n - 1)]).0,
                    match m1.write8(p_addr.wrapping_add((n - 1) as u64), file[offset + (n - 1)]).1 {
                        Ok(_) => Ok(()),
                        Err(_) => Err(LoadError::Fault),
                    },
                )
            },
        }
    }
}

/// The translation unit after the first `n` of `sections` were loaded, in
/// order, each to its place. The first error ends the loading.
pub open spec fn sections_loaded(
    mmu: MmuView,
    file: Seq<u8>,
    sections: Seq<SectionHeader>,
    programs: Seq<ProgramHeader>,
    target: u64,
    n: nat,
) -> (MmuView, Result<(), LoadError>)
    decreases n,
{
    if n == 0 {
        (mmu, Ok(()))
    } else {
        let (m1, before) = sections_loaded(mmu, file, sections, programs, target, (n - 1) as nat);
        let section = sections[n - 1];
        match before {
            Err(e) => (m1, Err(e)),
            Ok(_) => if is_loaded(section, target) {
                copied(
                    m1,
                    file,
                    section.sh_offset,
                    placement(section, programs).0,
                    placement(section, programs).1 as nat,
                )
            } else {
                (m1, Ok(()))
            },
        }
    }
}

/// Once a copy has failed, copying more bytes changes nothing.
pub proof fn lemma_copied_failed(
    mmu: MmuView,
    file: Seq<u8>,
    offset: u64,
    p_addr: u64,
    k: nat,
    n: nat,
)
    requires
        k <= n,
        copied(mmu, file, offset, p_addr, k).1 is Err,
    ensures
        copied(mmu, file, offset, p_addr, n) == copied(mmu, file, offset, p_addr, k),
    decreases n,
{
    if k < n {
        lemma_copied_failed(mmu, file, offset, p_addr, k, (n - 1) as nat);
    }
}

/// Once the loading of sections has failed, loading more sections changes nothing.
pub proof fn lemma_sections_loaded_failed(
    mmu: MmuView,
    file: Seq<u8>,
    sections: Seq<SectionHeader>,
    programs: Seq<ProgramHeader>,
    target: u64,
    k: nat,
    n: nat,
)
    requires
        k <= n,
        sections_loaded(mmu, file, sections, programs, target, k).1 is Err,
    ensures
        sections_loaded(mmu, file, sections, programs, target, n) == sections_loaded(
            mmu,
            file,
            sections,
            programs,
            target,
            k,
        ),
    decreases n,
{
    if k < n {
        lemma_sections_loaded_failed(mmu, file, sections, programs, target, k, (n - 1) as nat);
    }
}

/// The state of the emulator.
pub struct EmulatorView {
    pub cpu: CpuView,
    pub machine: Machine,
    pub testmode: bool,
    /// The address of the word through which a test program reports how it
    /// ended; 0 if there is none.
    pub tohost: u64,
}

impl EmulatorView {
    /// The emulator of `machine` after reset, without a report word.
    pub open spec fn reset(machine: Machine, testmode: bool) -> EmulatorView {
        EmulatorView { cpu: CpuView::reset(machine, testmode), machine, testmode, tohost: 0 }
    }

    /// The state with the hart and the machine replaced.
    pub open spec fn with_cpu(self, cpu: CpuView) -> EmulatorView {
        EmulatorView { cpu, ..self }
    }

    /// The device that programs are loaded to: DRAM on the `virt` board,
    /// the SPI flash on the others.
    pub open spec fn program_device(self) -> Device {
        if self.machine == Machine::QemuVirt {
            Device::Dram
        } else {
            Device::SpiFlash
        }
    }

    /// The register width for a file class.
    pub open spec fn xlen_of(class: EiClass) -> Option<Xlen> {
        match class {
            EiClass::Class32 => Some(Xlen::X32),
            EiClass::Class64 => Some(Xlen::X64),
            EiClass::NoClass => None,
        }
    }

    /// The sections of `sections` that hold program data, in order.
    pub open spec fn progbits(sections: Seq<SectionHeader>) -> Seq<SectionHeader> {
        sections.filter(|s: SectionHeader| s.sh_type == ShType::Progbits)
    }

    /// The sections of `sections` that are string tables, in order.
    pub open spec fn strtabs(sections: Seq<SectionHeader>) -> Seq<SectionHeader> {
        sections.filter(|s: SectionHeader| s.sh_type == ShType::Strtab)
    }

    /// The state after the program in `loader`, whose file header is
    /// `header`, was loaded, and whether it was. The program counter goes
    /// to the entry point and the register width follows the class of the
    /// file. Each section of program data that has a place in the file and
    /// whose address is not below the start of the program device is
    /// copied, byte by byte through the translation unit, to its place. In
    /// test mode the report word is the section that is named ".tohost", or
    /// 0. An error before the copying leaves the state as it is; an error
    /// while copying leaves what was copied.
    pub open spec fn loaded(self, loader: ElfLoader, header: ElfHeader) -> (
        EmulatorView,
        Result<(), LoadError>,
    ) {
        match Self::xlen_of(header.e_indent.ei_classs) {
            None => (self, Err(LoadError::BadClass)),
            Some(xlen) => match loader.section_headers(&header) {
                None => (self, Err(LoadError::BadSections)),
                Some(sections) => match loader.program_headers(&header) {
                    None => (self, Err(LoadError::BadSegments)),
                    Some(programs) => {
                        let cpu = self.cpu.with_pc(header.e_entry).with_xlen(xlen);
                        let copy = sections_loaded(
                            cpu.mmu,
                            loader@,
                            sections,
                            programs,
                            self.cpu.mmu.bus.base_address(self.program_device()).unwrap(),
                            sections.len(),
                        );
                        (
                            EmulatorView {
                                cpu: cpu.with_mmu(copy.0),
                                tohost: if copy.1 is Ok && self.testmode {
                                    match loader.tohost_address(
                                        Self::progbits(sections),
                                        Self::strtabs(sections),
                                    ) {
                                        Some(addr) => addr,
                                        None => 0,
                                    }
                                } else {
                                    self.tohost
                                },
                                ..self
                            },
                            copy.1,
                        )
                    },
                },
            },
        }
    }

    /// The state after the program in `loader` was loaded, and whether it
    /// was: the data must be an ELF file with a readable header, for a
    /// RISC-V machine.
    pub open spec fn program_loaded(self, loader: ElfLoader) -> (
        EmulatorView,
        Result<(), LoadError>,
    ) {
        if !loader.is_elf() {
            (self, Err(LoadError::NotElf))
        } else {
            match loader.get_elf_header() {
                None => (self, Err(LoadError::BadHeader)),
                Some(header) => if header.e_machine != EMachine::RISCV {
                    (self, Err(LoadError::NotRiscv))
                } else {
                    self.loaded(loader, header)
                },
            }
        }
    }

    /// What the emulator observes after a tick: in test mode with a report
    /// word, the word is read; 1 is a pass, any other value but 0 is a
    /// failure, and 0, or a word that cannot be read, is no verdict.
    pub open spec fn observed(self) -> (EmulatorView, Option<Verdict>) {
        if self.testmode && self.tohost != 0 {
            (
                self.with_cpu(self.cpu.with_mmu(self.cpu.mmu.read32_direct(self.tohost).0)),
                match self.cpu.mmu.read32_direct(self.tohost).1 {
                    Ok(data) => if data == 0 {
                        None
                    } else if data == 1 {
                        Some(Ok(1u32))
                    } else {
                        Some(Err(data))
                    },
                    Err(_) => None,
                },
            )
        } else {
            (self, None)
        }
    }

    /// Whether `next` and `verdict` are the state and the observation after
    /// one tick.
    #[verifier::opaque]
    pub open spec fn stepped(self, next: EmulatorView, verdict: Option<Verdict>) -> bool {
        exists|cpu: CpuView| #[trigger]
            self.cpu.ticked(cpu) && (next, verdict) == self.with_cpu(cpu).observed()
    }

    /// Whether `next` is the state after `n` ticks none of which gave a verdict.
    pub open spec fn ran(self, next: EmulatorView, n: nat) -> bool
        decreases n,
    {
        if n == 0 {
            next == self
        } else {
            exists|mid: EmulatorView|
                self.ran(mid, (n - 1) as nat) && #[trigger] mid.stepped(next, None)
        }
    }

    /// Whether `next` is the state after `n` ticks, with nothing observed.
    pub open spec fn ticks(self, next: EmulatorView, n: nat) -> bool
        decreases n,
    {
        if n == 0 {
            next == self
        } else {
            exists|mid: EmulatorView|
                self.ticks(mid, (n - 1) as nat) && #[trigger] mid.cpu.ticked(next.cpu) && next
                    == mid.with_cpu(next.cpu)
        }
    }
}

/// A run of `n` ticks without a verdict, and one more tick without a
/// verdict, make a run of `n + 1` ticks without a verdict.
pub proof fn lemma_ran_one_more(from: EmulatorView, mid: EmulatorView, to: EmulatorView, n: nat)
    requires
        from.ran(mid, n),
        mid.stepped(to, None),
    ensures
        from.ran(to, n + 1),
{
    assert(from.ran(mid, ((n + 1) - 1) as nat));
}

/// `n` ticks and one more make `n + 1` ticks.
pub proof fn lemma_ticks_one_more(from: EmulatorView, mid: EmulatorView, to: EmulatorView, n: nat)
    requires
        from.ticks(mid, n),
        mid.cpu.ticked(to.cpu),
        to == mid.with_cpu(to.cpu),
    ensures
        from.ticks(to, n + 1),
{
    assert(from.ticks(mid, ((n + 1) - 1) as nat));
}

/// The emulator: a hart on a machine, and the address through which a
/// test program reports how it ended.
pub struct Emulator {
    pub cpu: Cpu,
    pub machine: Machine,
    pub testmode: bool,
    pub tohost: u64,
}

impl View for Emulator {
    type V = EmulatorView;

    open spec fn view(&self) -> EmulatorView {
        EmulatorView {
            cpu: self.cpu@,
            machine: self.machine,
            testmode: self.testmode,
            tohost: self.tohost,
        }
    }
}

impl Emulator {
    /// An emulator of `machine_` after reset, with `tty` behind the
    /// machine's first UART.
    pub fn new(machine_: Machine, tty: Box<dyn Console>, testmode_: bool) -> (emu: Emulator)
        ensures
            emu@ == EmulatorView::reset(machine_, testmode_),
    {
        Self {
            cpu: Cpu::new(machine_, tty, testmode_),
            machine: machine_,
            testmode: testmode_,
            tohost: 0,
        }
    }

    /// Resets the registers of the hart.
    pub fn reset(&mut self)
        ensures
            final(self)@ == old(self)@.with_cpu(old(self)@.cpu.registers_reset()),
    {
        self.cpu.reset()
    }

    pub fn set_pc(&mut self, addr: u64)
        ensures
            final(self)@ == old(self)@.with_cpu(old(self)@.cpu.with_pc(addr)),
    {
        self.cpu.set_pc(addr)
    }

    /// The console of the machine, to read from it and to write to it; the
    /// emulator stays as it is.
    pub fn get_console(&mut self) -> (console: &mut Box<dyn Console>)
        ensures
            match old(self).cpu.mmu.bus {
                Bus::Fe310(bus) => *console == bus.uart0.console,
                Bus::QemuVirt(bus) => *console == bus.uart.console,
            },
            match final(self).cpu.mmu.bus {
                Bus::Fe310(bus) => bus.uart0.console == *final(console),
                Bus::QemuVirt(bus) => bus.uart.console == *final(console),
            },
            final(self)@ == old(self)@,
    {
        self.cpu.mmu.bus.get_console()
    }

    /// Whether `len` bytes of data can be installed in `device`.
    pub fn accepts_device_data(&self, device: Device, len: usize) -> (b: bool)
        ensures
            b == self@.cpu.mmu.bus.accepts(device, len as nat),
    {
        self.cpu.mmu.bus.accepts_device_data(device, len)
    }

    /// Installs `data` in `device`.
    pub fn set_data_from_binary(&mut self, device: Device, data: Vec<u8>)
        requires
            old(self)@.cpu.mmu.bus.accepts(device, data@.len()),
        ensures
            final(self)@ == old(self)@.with_cpu(
                old(self)@.cpu.with_mmu(
                    old(self)@.cpu.mmu.with_bus(
                        old(self)@.cpu.mmu.bus.with_device_data(device, data@),
                    ),
                ),
            ),
    {
        self.cpu.mmu.bus.set_device_data(device, data);
    }

    /// Installs `data` at the beginning of DRAM.
    pub fn set_dram_data(&mut self, data: Vec<u8>)
        requires
            old(self)@.cpu.mmu.bus.accepts(Device::Dram, data@.len()),
        ensures
            final(self)@ == old(self)@.with_cpu(
                old(self)@.cpu.with_mmu(
                    old(self)@.cpu.mmu.with_bus(
                        old(self)@.cpu.mmu.bus.with_device_data(Device::Dram, data@),
                    ),
                ),
            ),
    {
        self.cpu.mmu.bus.set_device_data(Device::Dram, data);
    }

    /// Loads the ELF file `data`.
    pub fn load_program_from_binary(&mut self, data: Vec<u8>) -> (r: Result<(), LoadError>)
        requires
            old(self)@.cpu.mmu.bus.base_address(old(self)@.program_device()) is Some,
        ensures
            (final(self)@, r) == old(self)@.program_loaded(ElfLoader { data }),
    {
        match ElfLoader::new(data) {
            Ok(loader) => self.load_program(loader),
            Err(_) => Err(LoadError::NotElf),
        }
    }

    /// Loads the program in `loader`.
    pub fn load_program(&mut self, loader: ElfLoader) -> (r: Result<(), LoadError>)
        requires
            old(self)@.cpu.mmu.bus.base_address(old(self)@.program_device()) is Some,
        ensures
            (final(self)@, r) == old(self)@.program_loaded(loader),
    {
        if !loader.is_elf() {
            return Err(LoadError::NotElf);
        }
        let elf_header: ElfHeader = match loader.get_elf_header() {
            Some(header) => header,
            None => {
                return Err(LoadError::BadHeader);
            },
        };
        match elf_header.e_machine {
            EMachine::RISCV => {},
            _ => {
                return Err(LoadError::NotRiscv);
            },
        }
        let xlen: Xlen = match elf_header.e_indent.ei_classs {
            EiClass::Class32 => Xlen::X32,
            EiClass::Class64 => Xlen::X64,
            EiClass::NoClass => {
                return Err(LoadError::BadClass);
            },
        };
        let sec_headers: Vec<SectionHeader> = match loader.get_section_header(&elf_header) {
            Some(headers) => headers,
            None => {
                return Err(LoadError::BadSections);
            },
        };
        let program_headers: Vec<ProgramHeader> = match loader.get_program_header(&elf_header) {
            Some(headers) => headers,
            None => {
                return Err(LoadError::BadSegments);
            },
        };
        let device: Device = match self.machine {
            Machine::QemuVirt => Device::Dram,
            _ => Device::SpiFlash,
        };
        let target_device_addr: u64 = self.cpu.mmu.bus.get_base_address(device);
        self.cpu.set_pc(elf_header.e_entry);
        self.cpu.set_xlen(xlen);
        match self.load_sections(&loader, &sec_headers, &program_headers, target_device_addr) {
            Ok(_) => {},
            Err(e) => {
                return Err(e);
            },
        }
        if self.testmode {
            let progbits_sec_headers: Vec<SectionHeader> = Self::sections_of(
                &sec_headers,
                ShType::Progbits,
            );
            let strtab_sec_headers: Vec<SectionHeader> = Self::sections_of(
                &sec_headers,
                ShType::Strtab,
            );
            assert(progbits_sec_headers@ == EmulatorView::progbits(sec_headers@)) by {
                assert((|s: SectionHeader| s.sh_type == ShType::Progbits) =~= (|s: SectionHeader|
                    s.sh_type == ShType::Progbits));
            }
            self.tohost = match loader.search_tohost(&progbits_sec_headers, &strtab_sec_headers) {
                Some(addr) => addr,
                None => 0,
            };
        }
        Ok(())
    }

    /// Copies the sections that are loaded, in order, each to its place.
    pub fn load_sections(
        &mut self,
        loader: &ElfLoader,
        sec_headers: &Vec<SectionHeader>,
        program_headers: &Vec<ProgramHeader>,
        target_device_addr: u64,
    ) -> (r: Result<(), LoadError>)
        ensures
            final(self)@ == old(self)@.with_cpu(
                old(self)@.cpu.with_mmu(
                    sections_loaded(
                        old(self)@.cpu.mmu,
                        loader@,
                        sec_headers@,
                        program_headers@,
                        target_device_addr,
                        sec_headers@.len(),
                    ).0,
                ),
            ),
            r == sections_loaded(
                old(self)@.cpu.mmu,
                loader@,
                sec_headers@,
                program_headers@,
                target_device_addr,
                sec_headers@.len(),
            ).1,
    {
        let ghost start: MmuView = self.cpu.mmu@;
        let mut i: usize = 0;
        while i < sec_headers.len()
            invariant
                i <= sec_headers@.len(),
                self@ == old(self)@.with_cpu(old(self)@.cpu.with_mmu(self@.cpu.mmu)),
                start == old(self)@.cpu.mmu,
                (self@.cpu.mmu, Ok::<(), LoadError>(())) == sections_loaded(
                    start,
                    loader@,
                    sec_headers@,
                    program_headers@,
                    target_device_addr,
                    i as nat,
                ),
            decreases sec_headers.len() - i,
        {
            let section: SectionHeader = sec_headers[i];
            let is_progbits: bool = match section.sh_type {
                ShType::Progbits => true,
                _ => false,
            };
            if is_progbits && section.sh_addr >= target_device_addr && section.sh_offset > 0 {
                let place: (u64, u64) = Self::place(&section, program_headers);
                let ghost before: MmuView = self.cpu.mmu@;
                assert(is_loaded(sec_headers@[(i + 1) - 1], target_device_addr));
                assert(sections_loaded(
                    start,
                    loader@,
                    sec_headers@,
                    program_headers@,
                    target_device_addr,
                    (i + 1) as nat,
                ) == copied(before, loader@, section.sh_offset, place.0, place.1 as nat));
                match self.copy(loader, section.sh_offset, place.0, place.1) {
                    Ok(_) => {},
                    Err(e) => {
                        proof {
                            lemma_sections_loaded_failed(
                                start,
                                loader@,
                                sec_headers@,
                                program_headers@,
                                target_device_addr,
                                (i + 1) as nat,
                                sec_headers@.len(),
                            );
                        }
                        return Err(e);
                    },
                }
            }
            i += 1;
        }
        Ok(())
    }

    /// The sections of `sections` that have the type `kind`, in order.
    pub fn sections_of(sections: &Vec<SectionHeader>, kind: ShType) -> (r: Vec<SectionHeader>)
        ensures
            r@ == sections@.filter(|s: SectionHeader| s.sh_type == kind),
    {
        let mut r: Vec<SectionHeader> = Vec::new();
        let mut i: usize = 0;
        assert(sections@.take(0).filter(|s: SectionHeader| s.sh_type == kind) =~= Seq::<
            SectionHeader,
        >::empty()) by {
            reveal(Seq::filter);
        }
        while i < sections.len()
            invariant
                i <= sections@.len(),
                r@ == sections@.take(i as int).filter(|s: SectionHeader| s.sh_type == kind),
            decreases sections.len() - i,
        {
            let section: SectionHeader = sections[i];
            proof {
                reveal(Seq::filter);
                assert(sections@.take(i + 1).drop_last() =~= sections@.take(i as int));
                assert(sections@.take(i + 1).last() == section);
            }
            if section.sh_type == kind {
                r.push(section);
            }
            i += 1;
        }
        assert(sections@.take(i as int) =~= sections@);
        r
    }

    /// Where the section `section` goes, and how many bytes of it.
    pub fn place(section: &SectionHeader, programs: &Vec<ProgramHeader>) -> (r: (u64, u64))
        ensures
            r == placement(*section, programs@),
    {
        let mut k: usize = 0;
        while k < programs.len()
            invariant
                k <= programs@.len(),
                first_segment(programs@, section.sh_addr, 0) == first_segment(
                    programs@,
                    section.sh_addr,
                    k as int,
                ),
            decreases programs.len() - k,
        {
            if section.sh_addr == programs[k].p_vaddr {
                return (programs[k].p_paddr, programs[k].p_filesz);
            }
            k += 1;
        }
        (section.sh_addr, section.sh_size)
    }

    /// Copies `size` bytes of the file in `loader`, from `offset` on, to
    /// the addresses from `p_addr` on.
    pub fn copy(&mut self, loader: &ElfLoader, offset: u64, p_addr: u64, size: u64) -> (r:
        Result<(), LoadError>)
        ensures
            final(self)@ == old(self)@.with_cpu(
                old(self)@.cpu.with_mmu(
                    copied(old(self)@.cpu.mmu, loader@, offset, p_addr, size as nat).0,
                ),
            ),
            r == copied(old(self)@.cpu.mmu, loader@, offset, p_addr, size as nat).1,
    {
        let mut j: u64 = 0;
        while j < size
            invariant
                j <= size,
                self@ == old(self)@.with_cpu(old(self)@.cpu.with_mmu(self@.cpu.mmu)),
                (self@.cpu.mmu, Ok::<(), LoadError>(())) == copied(
                    old(self)@.cpu.mmu,
                    loader@,
                    offset,
                    p_addr,
                    j as nat,
                ),
            decreases size - j,
        {
            let at: Option<u64> = offset.checked_add(j);
            let in_file: bool = match at {
                Some(a) => a < loader.data.len() as u64,
                None => false,
            };
            if !in_file {
                proof {
                    lemma_copied_failed(
                        old(self)@.cpu.mmu,
                        loader@,
                        offset,
                        p_addr,
                        (j + 1) as nat,
                        size as nat,
                    );
                }
                return Err(LoadError::Truncated);
            }
            let data: u8 = loader.read8((offset + j) as usize);
            match self.cpu.mmu.write8(p_addr.wrapping_add(j), data) {
                Ok(_) => {},
                Err(_) => {
                    proof {
                        lemma_copied_failed(
                            old(self)@.cpu.mmu,
                            loader@,
                            offset,
                            p_addr,
                            (j + 1) as nat,
                            size as nat,
                        );
                    }
                    return Err(LoadError::Fault);
                },
            }
            j += 1;
        }
        Ok(())
    }

    /// Advances the emulator by one tick and observes the report word.
    pub fn step(&mut self) -> (verdict: Option<Verdict>)
        ensures
            old(self)@.stepped(final(self)@, verdict),
    {
        reveal(EmulatorView::stepped);
        self.cpu.tick();
        assert(old(self)@.cpu.ticked(self.cpu@));
        if self.testmode && self.tohost != 0 {
            match self.cpu.mmu.read32_direct(self.tohost) {
                Ok(data) => if data == 0 {
                    None
                } else if data == 1 {
                    Some(Ok(1u32))
                } else {
                    Some(Err(data))
                },
                Err(_) => None,
            }
        } else {
            None
        }
    }

    /// Runs until a test program reports how it ended, for at most
    /// `max_ticks` ticks.
    pub fn run(&mut self, max_ticks: u64) -> (r: Option<Verdict>)
        ensures
            match r {
                Some(verdict) => exists|n: nat, mid: EmulatorView|
                    n < max_ticks && #[trigger] old(self)@.ran(mid, n) && mid.stepped(
                        final(self)@,
                        Some(verdict),
                    ),
                None => old(self)@.ran(final(self)@, max_ticks as nat),
            },
    {
        let mut i: u64 = 0;
        while i < max_ticks
            invariant
                i <= max_ticks,
                old(self)@.ran(self@, i as nat),
            decreases max_ticks - i,
        {
            let ghost before: EmulatorView = self@;
            match self.step() {
                Some(verdict) => {
                    return Some(verdict);
                },
                None => {
                    proof {
                        lemma_ran_one_more(old(self)@, before, self@, i as nat);
                    }
                },
            }
            i += 1;
        }
        None
    }

    /// Runs for `steps` ticks, observing nothing.
    pub fn run_steps(&mut self, steps: u32)
        ensures
            old(self)@.ticks(final(self)@, steps as nat),
    {
        let mut i: u32 = 0;
        while i < steps
            invariant
                i <= steps,
                old(self)@.ticks(self@, i as nat),
            decreases steps - i,
        {
            let ghost before: EmulatorView = self@;
            self.cpu.tick();
            proof {
                lemma_ticks_one_more(old(self)@, before, self@, i as nat);
            }
            i += 1;
        }
    }
}

} // verus!
