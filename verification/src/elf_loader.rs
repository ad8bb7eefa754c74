use vstd::prelude::*;

use crate::peripherals::memory::{le16, le32, le64};

verus! {

/// 0x7f 'E' 'L' 'F', little-endian.
pub const HEADER_MAGIC: u32 = 0x464c457f;

/// ".tohost", little-endian, with its terminating zero.
pub const TOHOST: u64 = 0x0074736f686f742e;

/// The size of the header of a 32-bit file.
pub const ELF32_HEADER_SIZE: usize = 0x34;

/// The size of the header of a 64-bit file.
pub const ELF64_HEADER_SIZE: usize = 0x40;

#[derive(Clone, Copy, Debug, PartialEq, Eq, Structural)]
pub struct ElfHeader {
    pub e_indent: Ei,
    pub e_type: EType,
    pub e_machine: EMachine,
    pub e_version: EVersion,
    pub e_entry: u64,
    pub e_phoff: u64,
    pub e_shoff: u64,
    pub e_flags: u32,
    pub e_ehsize: u16,
    pub e_phentsize: u16,
    pub e_phnum: u16,
    pub e_shentsize: u16,
    pub e_shnum: u16,
    pub e_shstrndx: u16,
}

#[derive(Clone, Copy, Debug, PartialEq, Eq, Structural)]
pub struct ProgramHeader {
    pub p_type: u32,
    pub p_flags: u32,
    pub p_offset: u64,
    pub p_vaddr: u64,
    pub p_paddr: u64,
    pub p_filesz: u64,
    pub p_memsz: u64,
    pub p_alignz: u64,
}

#[derive(Clone, Copy, Debug, PartialEq, Eq, Structural)]
pub struct SectionHeader {
    pub sh_name: u32,
    pub sh_type: ShType,
    pub sh_flags: u64,
    pub sh_addr: u64,
    pub sh_offset: u64,
    pub sh_size: u64,
    pub sh_link: u32,
    pub sh_info: u32,
    pub sh_addralign: u64,
    pub sh_entsize: u64,
}

#[derive(Clone, Copy, Debug, PartialEq, Eq, Structural)]
pub enum ShType {
    /// Section header table entry unused.
    Null,
    /// Program data.
    Progbits,
    /// Symbol table.
    Sysmtab,
    /// String table.
    Strtab,
    /// Relocation entries with addends.
    Rela,
    /// Symbol hash table.
    Hash,
    /// Dynamic linking information.
    Dynamic,
    /// Notes.
    Note,
    /// Program space with no data.
    Nobits,
    /// Relocation entries, no addends.
    Rel,
    /// Reserved.
    Shlib,
    /// Dynamic linker symbol table.
    Dynsym,
    /// Array of constructors.
    InitArray,
    /// Array of destructors.
    FiniArray,
    /// Array of pre-constructors.
    PreinitArray,
    /// Section group.
    Group,
    /// Extended section indices.
    SymtabShndx,
    /// Number of defined types.
    Num,
    /// Processor-specific.
    Loproc,
    Hiproc,
}

#[derive(Clone, Copy, Debug, PartialEq, Eq, Structural)]
pub enum ShFlag {
    Write,
    Alloc,
    Execinstr,
    Merge,
    Strings,
    InfoLink,
    LinkOrder,
    OsNonconforming,
    Group,
    Tls,
    Maskos,
    Ordered,
    Exclude,
}

#[derive(Clone, Copy, Debug, PartialEq, Eq, Structural)]
pub struct Ei {
    pub ei_classs: EiClass,
    pub ei_data: EiData,
    pub ei_version: EiVersion,
    pub ei_osabi: EiOsAbi,
    pub ei_abiversion: u8,
}

#[derive(Clone, Copy, Debug, PartialEq, Eq, Structural)]
pub enum EiClass {
    NoClass,
    Class32,
    Class64,
}

#[derive(Clone, Copy, Debug, PartialEq, Eq, Structural)]
pub enum EiData {
    NoData,
    D2Lsb,
    D2Msb,
}

#[derive(Clone, Copy, Debug, PartialEq, Eq, Structural)]
pub enum EiVersion {
    NoVersion,
    Current,
}

#[derive(Clone, Copy, Debug, PartialEq, Eq, Structural)]
pub enum EiOsAbi {
    SystemV,
    HpUx,
    NetBsd,
    Linux,
    GnuHurd,
    Solaris,
    Aix,
    Irix,
    FreeBsd,
    Tru64,
    NovellModestro,
    OpenBsd,
    OpenVms,
    NonStopKernel,
    Aros,
    FenixOs,
    CloudAbi,
    StartusTechnologiesOpenVos,
}

#[derive(Clone, Copy, Debug, PartialEq, Eq, Structural)]
pub enum EType {
    NoType,
    Rel,
    Exec,
    Dyn,
    Core,
    Loos,
    Hios,
    Loproc,
    Hiproc,
}

#[derive(Clone, Copy, Debug, PartialEq, Eq, Structural)]
pub enum EMachine {
    NoMachine,
    M32,
    SPARC,
    X86,
    M68K,
    M88K,
    I486,
    I860,
    MIPS,
    MipsRs4Be,
    PARISC,
    I960,
    PPC,
    PPC64,
    S390,
    ARM,
    SUPERH,
    IA64,
    AMD64,
    TMS320,
    ARM64,
    RISCV,
}

#[derive(Clone, Copy, Debug, PartialEq, Eq, Structural)]
pub enum EVersion {
    NoVersion,
    Current,
}

impl ShFlag {

    /// The bits of the flag in the flags field of a section header.
    pub open spec fn spec_bits(self) -> u64 {
        match self {
            ShFlag::Write => 0x1,
            ShFlag::Alloc => 0x2,
            ShFlag::Execinstr => 0x4,
            ShFlag::Merge => 0x10,
            ShFlag::Strings => 0x20,
            ShFlag::InfoLink => 0x40,
            ShFlag::LinkOrder => 0x80,
            ShFlag::OsNonconforming => 0x100,
            ShFlag::Group => 0x200,
            ShFlag::Tls => 0x400,
            ShFlag::Maskos => 0x0ff0_0000,
            ShFlag::Ordered => 0x400_0000,
            ShFlag::Exclude => 0x800_0000,
        }
    }

    #[verifier::when_used_as_spec(spec_bits)]
    pub fn bits(self) -> (b: u64)
        ensures
            b == self.spec_bits(),
    {
        match self {
            ShFlag::Write => 0x1,
            ShFlag::Alloc => 0x2,
            ShFlag::Execinstr => 0x4,
            ShFlag::Merge => 0x10,
            ShFlag::Strings => 0x20,
            ShFlag::InfoLink => 0x40,
            ShFlag::LinkOrder => 0x80,
            ShFlag::OsNonconforming => 0x100,
            ShFlag::Group => 0x200,
            ShFlag::Tls => 0x400,
            ShFlag::Maskos => 0x0ff0_0000,
            ShFlag::Ordered => 0x400_0000,
            ShFlag::Exclude => 0x800_0000,
        }
    }
}

/// The file class that byte 4 of the identification names.
pub open spec fn spec_ei_class_of(b: u8) -> Option<EiClass> {
    if b == 0 {
        Some(EiClass::NoClass)
    } else if b == 1 {
        Some(EiClass::Class32)
    } else if b == 2 {
        Some(EiClass::Class64)
    } else {
        None
    }
}

#[verifier::when_used_as_spec(spec_ei_class_of)]
pub fn ei_class_of(b: u8) -> (v: Option<EiClass>)
    ensures
        v == spec_ei_class_of(b),
{
    if b == 0 {
        Some(EiClass::NoClass)
    } else if b == 1 {
        Some(EiClass::Class32)
    } else if b == 2 {
        Some(EiClass::Class64)
    } else {
        None
    }
}

/// The data encoding that byte 5 of the identification names.
pub open spec fn spec_ei_data_of(b: u8) -> Option<EiData> {
    if b == 0 {
        Some(EiData::NoData)
    } else if b == 1 {
        Some(EiData::D2Lsb)
    } else if b == 2 {
        Some(EiData::D2Msb)
    } else {
        None
    }
}

#[verifier::when_used_as_spec(spec_ei_data_of)]
pub fn ei_data_of(b: u8) -> (v: Option<EiData>)
    ensures
        v == spec_ei_data_of(b),
{
    if b == 0 {
        Some(EiData::NoData)
    } else if b == 1 {
        Some(EiData::D2Lsb)
    } else if b == 2 {
        Some(EiData::D2Msb)
    } else {
        None
    }
}

/// The version that byte 6 of the identification names.
pub open spec fn spec_ei_version_of(b: u8) -> Option<EiVersion> {
    if b == 0 {
        Some(EiVersion::NoVersion)
    } else if b == 1 {
        Some(EiVersion::Current)
    } else {
        None
    }
}

#[verifier::when_used_as_spec(spec_ei_version_of)]
pub fn ei_version_of(b: u8) -> (v: Option<EiVersion>)
    ensures
        v == spec_ei_version_of(b),
{
    if b == 0 {
        Some(EiVersion::NoVersion)
    } else if b == 1 {
        Some(EiVersion::Current)
    } else {
        None
    }
}

/// The operating system ABI that byte 7 of the identification names.
pub open spec fn spec_ei_osabi_of(b: u8) -> Option<EiOsAbi> {
    if b == 0x00 {
        Some(EiOsAbi::SystemV)
    } else if b == 0x01 {
        Some(EiOsAbi::HpUx)
    } else if b == 0x02 {
        Some(EiOsAbi::NetBsd)
    } else if b == 0x03 {
        Some(EiOsAbi::Linux)
    } else if b == 0x04 {
        Some(EiOsAbi::GnuHurd)
    } else if b == 0x06 {
        Some(EiOsAbi::Solaris)
    } else if b == 0x07 {
        Some(EiOsAbi::Aix)
    } else if b == 0x08 {
        Some(EiOsAbi::Irix)
    } else if b == 0x09 {
        Some(EiOsAbi::FreeBsd)
    } else if b == 0x0a {
        Some(EiOsAbi::Tru64)
    } else if b == 0x0b {
        Some(EiOsAbi::NovellModestro)
    } else if b == 0x0c {
        Some(EiOsAbi::OpenBsd)
    } else if b == 0x0d {
        Some(EiOsAbi::OpenVms)
    } else if b == 0x0e {
        Some(EiOsAbi::NonStopKernel)
    } else if b == 0x0f {
        Some(EiOsAbi::Aros)
    } else if b == 0x10 {
        Some(EiOsAbi::FenixOs)
    } else if b == 0x11 {
        Some(EiOsAbi::CloudAbi)
    } else if b == 0x12 {
        Some(EiOsAbi::StartusTechnologiesOpenVos)
    } else {
        None
    }
}

#[verifier::when_used_as_spec(spec_ei_osabi_of)]
pub fn ei_osabi_of(b: u8) -> (v: Option<EiOsAbi>)
    ensures
        v == spec_ei_osabi_of(b),
{
    if b == 0x00 {
        Some(EiOsAbi::SystemV)
    } else if b == 0x01 {
        Some(EiOsAbi::HpUx)
    } else if b == 0x02 {
        Some(EiOsAbi::NetBsd)
    } else if b == 0x03 {
        Some(EiOsAbi::Linux)
    } else if b == 0x04 {
        Some(EiOsAbi::GnuHurd)
    } else if b == 0x06 {
        Some(EiOsAbi::Solaris)
    } else if b == 0x07 {
        Some(EiOsAbi::Aix)
    } else if b == 0x08 {
        Some(EiOsAbi::Irix)
    } else if b == 0x09 {
        Some(EiOsAbi::FreeBsd)
    } else if b == 0x0a {
        Some(EiOsAbi::Tru64)
    } else if b == 0x0b {
        Some(EiOsAbi::NovellModestro)
    } else if b == 0x0c {
        Some(EiOsAbi::OpenBsd)
    } else if b == 0x0d {
        Some(EiOsAbi::OpenVms)
    } else if b == 0x0e {
        Some(EiOsAbi::NonStopKernel)
    } else if b == 0x0f {
        Some(EiOsAbi::Aros)
    } else if b == 0x10 {
        Some(EiOsAbi::FenixOs)
    } else if b == 0x11 {
        Some(EiOsAbi::CloudAbi)
    } else if b == 0x12 {
        Some(EiOsAbi::StartusTechnologiesOpenVos)
    } else {
        None
    }
}

/// The object file type that the type field names.
pub open spec fn spec_e_type_of(t: u16) -> Option<EType> {
    if t == 0x0000 {
        Some(EType::NoType)
    } else if t == 0x0001 {
        Some(EType::Rel)
    } else if t == 0x0002 {
        Some(EType::Exec)
    } else if t == 0x0003 {
        Some(EType::Dyn)
    } else if t == 0x0004 {
        Some(EType::Core)
    } else if t == 0xfe00 {
        Some(EType::Loos)
    } else if t == 0xfeff {
        Some(EType::Hios)
    } else if t == 0xff00 {
        Some(EType::Loproc)
    } else if t == 0xffff {
        Some(EType::Hiproc)
    } else {
        None
    }
}

#[verifier::when_used_as_spec(spec_e_type_of)]
pub fn e_type_of(t: u16) -> (v: Option<EType>)
    ensures
        v == spec_e_type_of(t),
{
    if t == 0x0000 {
        Some(EType::NoType)
    } else if t == 0x0001 {
        Some(EType::Rel)
    } else if t == 0x0002 {
        Some(EType::Exec)
    } else if t == 0x0003 {
        Some(EType::Dyn)
    } else if t == 0x0004 {
        Some(EType::Core)
    } else if t == 0xfe00 {
        Some(EType::Loos)
    } else if t == 0xfeff {
        Some(EType::Hios)
    } else if t == 0xff00 {
        Some(EType::Loproc)
    } else if t == 0xffff {
        Some(EType::Hiproc)
    } else {
        None
    }
}

/// The machine that the low byte of the machine field names.
pub open spec fn spec_e_machine_of(m: u8) -> Option<EMachine> {
    if m == 0x00 {
        Some(EMachine::NoMachine)
    } else if m == 0x01 {
        Some(EMachine::M32)
    } else if m == 0x02 {
        Some(EMachine::SPARC)
    } else if m == 0x03 {
        Some(EMachine::X86)
    } else if m == 0x04 {
        Some(EMachine::M68K)
    } else if m == 0x05 {
        Some(EMachine::M88K)
    } else if m == 0x06 {
        Some(EMachine::I486)
    } else if m == 0x07 {
        Some(EMachine::I860)
    } else if m == 0x08 {
        Some(EMachine::MIPS)
    } else if m == 0x09 {
        Some(EMachine::MipsRs4Be)
    } else if m == 0x0a {
        Some(EMachine::PARISC)
    } else if m == 0x13 {
        Some(EMachine::I960)
    } else if m == 0x14 {
        Some(EMachine::PPC)
    } else if m == 0x15 {
        Some(EMachine::PPC64)
    } else if m == 0x16 {
        Some(EMachine::S390)
    } else if m == 0x28 {
        Some(EMachine::ARM)
    } else if m == 0x2a {
        Some(EMachine::SUPERH)
    } else if m == 0x32 {
        Some(EMachine::IA64)
    } else if m == 0x3e {
        Some(EMachine::AMD64)
    } else if m == 0x8c {
        Some(EMachine::TMS320)
    } else if m == 0xb7 {
        Some(EMachine::ARM64)
    } else if m == 0xf3 {
        Some(EMachine::RISCV)
    } else {
        None
    }
}

#[verifier::when_used_as_spec(spec_e_machine_of)]
pub fn e_machine_of(m: u8) -> (v: Option<EMachine>)
    ensures
        v == spec_e_machine_of(m),
{
    if m == 0x00 {
        Some(EMachine::NoMachine)
    } else if m == 0x01 {
        Some(EMachine::M32)
    } else if m == 0x02 {
        Some(EMachine::SPARC)
    } else if m == 0x03 {
        Some(EMachine::X86)
    } else if m == 0x04 {
        Some(EMachine::M68K)
    } else if m == 0x05 {
        Some(EMachine::M88K)
    } else if m == 0x06 {
        Some(EMachine::I486)
    } else if m == 0x07 {
        Some(EMachine::I860)
    } else if m == 0x08 {
        Some(EMachine::MIPS)
    } else if m == 0x09 {
        Some(EMachine::MipsRs4Be)
    } else if m == 0x0a {
        Some(EMachine::PARISC)
    } else if m == 0x13 {
        Some(EMachine::I960)
    } else if m == 0x14 {
        Some(EMachine::PPC)
    } else if m == 0x15 {
        Some(EMachine::PPC64)
    } else if m == 0x16 {
        Some(EMachine::S390)
    } else if m == 0x28 {
        Some(EMachine::ARM)
    } else if m == 0x2a {
        Some(EMachine::SUPERH)
    } else if m == 0x32 {
        Some(EMachine::IA64)
    } else if m == 0x3e {
        Some(EMachine::AMD64)
    } else if m == 0x8c {
        Some(EMachine::TMS320)
    } else if m == 0xb7 {
        Some(EMachine::ARM64)
    } else if m == 0xf3 {
        Some(EMachine::RISCV)
    } else {
        None
    }
}

/// The version that the version field names.
pub open spec fn spec_e_version_of(n: u32) -> Option<EVersion> {
    if n == 0 {
        Some(EVersion::NoVersion)
    } else if n == 1 {
        Some(EVersion::Current)
    } else {
        None
    }
}

#[verifier::when_used_as_spec(spec_e_version_of)]
pub fn e_version_of(n: u32) -> (v: Option<EVersion>)
    ensures
        v == spec_e_version_of(n),
{
    if n == 0 {
        Some(EVersion::NoVersion)
    } else if n == 1 {
        Some(EVersion::Current)
    } else {
        None
    }
}

/// The section type that the type field names; the processor-specific
/// range counts as one type.
pub open spec fn spec_sh_type_of(t: u32) -> Option<ShType> {
    if t == 0x00 {
        Some(ShType::Null)
    } else if t == 0x01 {
        Some(ShType::Progbits)
    } else if t == 0x02 {
        Some(ShType::Sysmtab)
    } else if t == 0x03 {
        Some(ShType::Strtab)
    } else if t == 0x04 {
        Some(ShType::Rela)
    } else if t == 0x05 {
        Some(ShType::Hash)
    } else if t == 0x06 {
        Some(ShType::Dynamic)
    } else if t == 0x07 {
        Some(ShType::Note)
    } else if t == 0x08 {
        Some(ShType::Nobits)
    } else if t == 0x09 {
        Some(ShType::Rel)
    } else if t == 0x0a {
        Some(ShType::Shlib)
    } else if t == 0x0b {
        Some(ShType::Dynsym)
    } else if t == 0x0e {
        Some(ShType::InitArray)
    } else if t == 0x0f {
        Some(ShType::FiniArray)
    } else if t == 0x10 {
        Some(ShType::PreinitArray)
    } else if t == 0x11 {
        Some(ShType::Group)
    } else if t == 0x12 {
        Some(ShType::SymtabShndx)
    } else if t == 0x13 {
        Some(ShType::Num)
    } else if 0x7000_0000 <= t && t <= 0x7fff_ffff {
        Some(ShType::Loproc)
    } else {
        None
    }
}

#[verifier::when_used_as_spec(spec_sh_type_of)]
pub fn sh_type_of(t: u32) -> (v: Option<ShType>)
    ensures
        v == spec_sh_type_of(t),
{
    if t == 0x00 {
        Some(ShType::Null)
    } else if t == 0x01 {
        Some(ShType::Progbits)
    } else if t == 0x02 {
        Some(ShType::Sysmtab)
    } else if t == 0x03 {
        Some(ShType::Strtab)
    } else if t == 0x04 {
        Some(ShType::Rela)
    } else if t == 0x05 {
        Some(ShType::Hash)
    } else if t == 0x06 {
        Some(ShType::Dynamic)
    } else if t == 0x07 {
        Some(ShType::Note)
    } else if t == 0x08 {
        Some(ShType::Nobits)
    } else if t == 0x09 {
        Some(ShType::Rel)
    } else if t == 0x0a {
        Some(ShType::Shlib)
    } else if t == 0x0b {
        Some(ShType::Dynsym)
    } else if t == 0x0e {
        Some(ShType::InitArray)
    } else if t == 0x0f {
        Some(ShType::FiniArray)
    } else if t == 0x10 {
        Some(ShType::PreinitArray)
    } else if t == 0x11 {
        Some(ShType::Group)
    } else if t == 0x12 {
        Some(ShType::SymtabShndx)
    } else if t == 0x13 {
        Some(ShType::Num)
    } else if 0x7000_0000 <= t && t <= 0x7fff_ffff {
        Some(ShType::Loproc)
    } else {
        None
    }
}

/// An ELF file in memory.
pub struct ElfLoader {
    pub data: Vec<u8>,
}

impl View for ElfLoader {
    type V = Seq<u8>;

    open spec fn view(&self) -> Seq<u8> {
        self.data@
    }
}

impl ElfLoader {
    pub fn new(data: Vec<u8>) -> (r: Result<Self, ()>)
        ensures
            r == Ok::<Self, ()>(ElfLoader { data }),
    {
        Ok(Self { data })
    }

    pub open spec fn spec_read8(&self, offset: usize) -> u8
        recommends
            offset < self.data.len(),
    {
        self.data@[offset as int]
    }

    /// The byte at `offset`.
    #[verifier::when_used_as_spec(spec_read8)]
    pub fn read8(&self, offset: usize) -> (v: u8)
        requires
            offset < self.data.len(),
        ensures
            v == self.spec_read8(offset),
    {
        self.data[offset]
    }

    pub open spec fn spec_read16(&self, offset: usize) -> u16
        recommends
            offset + 2 <= self.data.len(),
    {
        le16(self.data@, offset as int)
    }

    /// The 16-bit little-endian value at `offset`.
    #[verifier::when_used_as_spec(spec_read16)]
    pub fn read16(&self, offset: usize) -> (v: u16)
        requires
            offset + 2 <= self.data.len(),
        ensures
            v == self.spec_read16(offset),
    {
        (self.data[offset] as u16) | ((self.data[offset + 1] as u16) << 8)
    }

    pub open spec fn spec_read32(&self, offset: usize) -> u32
        recommends
            offset + 4 <= self.data.len(),
    {
        le32(self.data@, offset as int)
    }

    /// The 32-bit little-endian value at `offset`.
    #[verifier::when_used_as_spec(spec_read32)]
    pub fn read32(&self, offset: usize) -> (v: u32)
        requires
            offset + 4 <= self.data.len(),
        ensures
            v == self.spec_read32(offset),
    {
        (self.read16(offset) as u32) | ((self.read16(offset + 2) as u32) << 16)
    }

    pub open spec fn spec_read64(&self, offset: usize) -> u64
        recommends
            offset + 8 <= self.data.len(),
    {
        le64(self.data@, offset as int)
    }

    /// The 64-bit little-endian value at `offset`.
    #[verifier::when_used_as_spec(spec_read64)]
    pub fn read64(&self, offset: usize) -> (v: u64)
        requires
            offset + 8 <= self.data.len(),
        ensures
            v == self.spec_read64(offset),
    {
        (self.read32(offset) as u64) | ((self.read32(offset + 4) as u64) << 32)
    }

    /// Whether the data begins with the magic number of an ELF file.
    pub open spec fn spec_is_elf(&self) -> bool {
        self.data.len() >= 4 && self.read32(0) == HEADER_MAGIC
    }

    #[verifier::when_used_as_spec(spec_is_elf)]
    pub fn is_elf(&self) -> (b: bool)
        ensures
            b == self.spec_is_elf(),
    {
        self.data.len() >= 4 && self.read32(0) == HEADER_MAGIC
    }

    /// The file header. The identification gives the class, the data encoding,
    /// the version and the ABI; the class decides where the other fields lie and
    /// how wide the addresses and offsets are. `None` if the data is shorter than
    /// the header of its class, or if the identification, the type, the machine
    /// or the version holds a value that is not known.
    #[verifier::opaque]
    pub open spec fn spec_get_elf_header(&self) -> Option<ElfHeader> {
        if self.data.len() < ELF32_HEADER_SIZE {
            None
        } else {
            match (
                ei_class_of(self.read8(4)),
                ei_data_of(self.read8(5)),
                ei_version_of(self.read8(6)),
                ei_osabi_of(self.read8(7)),
                e_type_of(self.read16(0x10)),
                e_machine_of(self.read8(0x12)),
                e_version_of(self.read32(0x14)),
            ) {
                (
                    Some(ei_classs),
                    Some(ei_data),
                    Some(ei_version),
                    Some(ei_osabi),
                    Some(e_type),
                    Some(e_machine),
                    Some(e_version),
                ) => {
                    let e_indent = Ei {
                        ei_classs,
                        ei_data,
                        ei_version,
                        ei_osabi,
                        ei_abiversion: self.read8(8),
                    };
                    match ei_classs {
                        EiClass::Class32 => Some(
                            ElfHeader {
                                e_indent,
                                e_type,
                                e_machine,
                                e_version,
                                e_entry: self.read32(0x18) as u64,
                                e_phoff: self.read32(0x1c) as u64,
                                e_shoff: self.read32(0x20) as u64,
                                e_flags: self.read32(0x24),
                                e_ehsize: self.read16(0x28),
                                e_phentsize: self.read16(0x2a),
                                e_phnum: self.read16(0x2c),
                                e_shentsize: self.read16(0x2e),
                                e_shnum: self.read16(0x30),
                                e_shstrndx: self.read16(0x32),
                            },
                        ),
                        _ => if self.data.len() < ELF64_HEADER_SIZE {
                            None
                        } else {
                            Some(
                                ElfHeader {
                                    e_indent,
                                    e_type,
                                    e_machine,
                                    e_version,
                                    e_entry: self.read64(0x18),
                                    e_phoff: self.read64(0x20),
                                    e_shoff: self.read64(0x28),
                                    e_flags: self.read32(0x30),
                                    e_ehsize: self.read16(0x34),
                                    e_phentsize: self.read16(0x36),
                                    e_phnum: self.read16(0x38),
                                    e_shentsize: self.read16(0x3a),
                                    e_shnum: self.read16(0x3c),
                                    e_shstrndx: self.read16(0x3e),
                                },
                            )
                        },
                    }
                },
                _ => None,
            }
        }
    }

    #[verifier::when_used_as_spec(spec_get_elf_header)]
    pub fn get_elf_header(&self) -> (header: Option<ElfHeader>)
        ensures
            header == self.spec_get_elf_header(),
    {
        reveal(ElfLoader::spec_get_elf_header);
        if self.data.len() < ELF32_HEADER_SIZE {
            None
        } else {
            match (
                ei_class_of(self.read8(4)),
                ei_data_of(self.read8(5)),
                ei_version_of(self.read8(6)),
                ei_osabi_of(self.read8(7)),
                e_type_of(self.read16(0x10)),
                e_machine_of(self.read8(0x12)),
                e_version_of(self.read32(0x14)),
            ) {
                (
                    Some(ei_classs),
                    Some(ei_data),
                    Some(ei_version),
                    Some(ei_osabi),
                    Some(e_type),
                    Some(e_machine),
                    Some(e_version),
                ) => {
                    let e_indent = Ei {
                        ei_classs,
                        ei_data,
                        ei_version,
                        ei_osabi,
                        ei_abiversion: self.read8(8),
                    };
                    match ei_classs {
                        EiClass::Class32 => Some(
                            ElfHeader {
                                e_indent,
                                e_type,
                                e_machine,
                                e_version,
                                e_entry: self.read32(0x18) as u64,
                                e_phoff: self.read32(0x1c) as u64,
                                e_shoff: self.read32(0x20) as u64,
                                e_flags: self.read32(0x24),
                                e_ehsize: self.read16(0x28),
                                e_phentsize: self.read16(0x2a),
                                e_phnum: self.read16(0x2c),
                                e_shentsize: self.read16(0x2e),
                                e_shnum: self.read16(0x30),
                                e_shstrndx: self.read16(0x32),
                            },
                        ),
                        _ => if self.data.len() < ELF64_HEADER_SIZE {
                            None
                        } else {
                            Some(
                                ElfHeader {
                                    e_indent,
                                    e_type,
                                    e_machine,
                                    e_version,
                                    e_entry: self.read64(0x18),
                                    e_phoff: self.read64(0x20),
                                    e_shoff: self.read64(0x28),
                                    e_flags: self.read32(0x30),
                                    e_ehsize: self.read16(0x34),
                                    e_phentsize: self.read16(0x36),
                                    e_phnum: self.read16(0x38),
                                    e_shentsize: self.read16(0x3a),
                                    e_shnum: self.read16(0x3c),
                                    e_shstrndx: self.read16(0x3e),
                                },
                            )
                        },
                    }
                },
                _ => None,
            }
        }
    }

    /// The program header at `offset`: 32 bytes in a 32-bit file, 56 bytes
    /// otherwise. `None` if it does not lie within the data.
    #[verifier::opaque]
    pub open spec fn spec_program_header_at(&self, class: EiClass, offset: u64) -> Option<ProgramHeader> {
        match class {
            EiClass::Class32 => if offset > self.data.len() as u64 || (self.data.len() as u64 - offset)
                < 32 {
                None
            } else {
                let o: usize = offset as usize;
                Some(
                    ProgramHeader {
                        p_type: self.read32(o),
                        p_offset: self.read32((o + 4) as usize) as u64,
                        p_vaddr: self.read32((o + 8) as usize) as u64,
                        p_paddr: self.read32((o + 12) as usize) as u64,
                        p_filesz: self.read32((o + 16) as usize) as u64,
                        p_memsz: self.read32((o + 20) as usize) as u64,
                        p_flags: self.read32((o + 24) as usize),
                        p_alignz: self.read32((o + 28) as usize) as u64,
                    },
                )
            },
            _ => if offset > self.data.len() as u64 || (self.data.len() as u64 - offset) < 56 {
                None
            } else {
                let o: usize = offset as usize;
                Some(
                    ProgramHeader {
                        p_type: self.read32(o),
                        p_flags: self.read32((o + 4) as usize),
                        p_offset: self.read64((o + 8) as usize),
                        p_vaddr: self.read64((o + 16) as usize),
                        p_paddr: self.read64((o + 24) as usize),
                        p_filesz: self.read64((o + 32) as usize),
                        p_memsz: self.read64((o + 40) as usize),
                        p_alignz: self.read64((o + 48) as usize),
                    },
                )
            },
        }
    }

    #[verifier::when_used_as_spec(spec_program_header_at)]
    pub fn program_header_at(&self, class: EiClass, offset: u64) -> (header: Option<ProgramHeader>)
        ensures
            header == self.spec_program_header_at(class, offset),
    {
        reveal(ElfLoader::spec_program_header_at);
        match class {
            EiClass::Class32 => if offset > self.data.len() as u64 || (self.data.len() as u64 - offset)
                < 32 {
                None
            } else {
                let o: usize = offset as usize;
                Some(
                    ProgramHeader {
                        p_type: self.read32(o),
                        p_offset: self.read32((o + 4) as usize) as u64,
                        p_vaddr: self.read32((o + 8) as usize) as u64,
                        p_paddr: self.read32((o + 12) as usize) as u64,
                        p_filesz: self.read32((o + 16) as usize) as u64,
                        p_memsz: self.read32((o + 20) as usize) as u64,
                        p_flags: self.read32((o + 24) as usize),
                        p_alignz: self.read32((o + 28) as usize) as u64,
                    },
                )
            },
            _ => if offset > self.data.len() as u64 || (self.data.len() as u64 - offset) < 56 {
                None
            } else {
                let o: usize = offset as usize;
                Some(
                    ProgramHeader {
                        p_type: self.read32(o),
                        p_flags: self.read32((o + 4) as usize),
                        p_offset: self.read64((o + 8) as usize),
                        p_vaddr: self.read64((o + 16) as usize),
                        p_paddr: self.read64((o + 24) as usize),
                        p_filesz: self.read64((o + 32) as usize),
                        p_memsz: self.read64((o + 40) as usize),
                        p_alignz: self.read64((o + 48) as usize),
                    },
                )
            },
        }
    }

    /// The section header at `offset`: 40 bytes in a 32-bit file, 64 bytes
    /// otherwise. `None` if it does not lie within the data, or if its type is not
    /// known.
    #[verifier::opaque]
    pub open spec fn spec_section_header_at(&self, class: EiClass, offset: u64) -> Option<SectionHeader> {
        match class {
            EiClass::Class32 => if offset > self.data.len() as u64 || (self.data.len() as u64 - offset)
                < 40 {
                None
            } else {
                let o: usize = offset as usize;
                match sh_type_of(self.read32((o + 4) as usize)) {
                    Some(sh_type) => Some(
                        SectionHeader {
                            sh_name: self.read32(o),
                            sh_type,
                            sh_flags: self.read32((o + 8) as usize) as u64,
                            sh_addr: self.read32((o + 0x0c) as usize) as u64,
                            sh_offset: self.read32((o + 0x10) as usize) as u64,
                            sh_size: self.read32((o + 0x14) as usize) as u64,
                            sh_link: self.read32((o + 0x18) as usize),
                            sh_info: self.read32((o + 0x1c) as usize),
                            sh_addralign: self.read32((o + 0x20) as usize) as u64,
                            sh_entsize: self.read32((o + 0x24) as usize) as u64,
                        },
                    ),
                    None => None,
                }
            },
            _ => if offset > self.data.len() as u64 || (self.data.len() as u64 - offset) < 64 {
                None
            } else {
                let o: usize = offset as usize;
                match sh_type_of(self.read32((o + 4) as usize)) {
                    Some(sh_type) => Some(
                        SectionHeader {
                            sh_name: self.read32(o),
                            sh_type,
                            sh_flags: self.read64((o + 8) as usize),
                            sh_addr: self.read64((o + 0x10) as usize),
                            sh_offset: self.read64((o + 0x18) as usize),
                            sh_size: self.read64((o + 0x20) as usize),
                            sh_link: self.read32((o + 0x28) as usize),
                            sh_info: self.read32((o + 0x2c) as usize),
                            sh_addralign: self.read64((o + 0x30) as usize),
                            sh_entsize: self.read64((o + 0x38) as usize),
                        },
                    ),
                    None => None,
                }
            },
        }
    }

    #[verifier::when_used_as_spec(spec_section_header_at)]
    pub fn section_header_at(&self, class: EiClass, offset: u64) -> (header: Option<SectionHeader>)
        ensures
            header == self.spec_section_header_at(class, offset),
    {
        reveal(ElfLoader::spec_section_header_at);
        match class {
            EiClass::Class32 => if offset > self.data.len() as u64 || (self.data.len() as u64 - offset)
                < 40 {
                None
            } else {
                let o: usize = offset as usize;
                match sh_type_of(self.read32((o + 4) as usize)) {
                    Some(sh_type) => Some(
                        SectionHeader {
                            sh_name: self.read32(o),
                            sh_type,
                            sh_flags: self.read32((o + 8) as usize) as u64,
                            sh_addr: self.read32((o + 0x0c) as usize) as u64,
                            sh_offset: self.read32((o + 0x10) as usize) as u64,
                            sh_size: self.read32((o + 0x14) as usize) as u64,
                            sh_link: self.read32((o + 0x18) as usize),
                            sh_info: self.read32((o + 0x1c) as usize),
                            sh_addralign: self.read32((o + 0x20) as usize) as u64,
                            sh_entsize: self.read32((o + 0x24) as usize) as u64,
                        },
                    ),
                    None => None,
                }
            },
            _ => if offset > self.data.len() as u64 || (self.data.len() as u64 - offset) < 64 {
                None
            } else {
                let o: usize = offset as usize;
                match sh_type_of(self.read32((o + 4) as usize)) {
                    Some(sh_type) => Some(
                        SectionHeader {
                            sh_name: self.read32(o),
                            sh_type,
                            sh_flags: self.read64((o + 8) as usize),
                            sh_addr: self.read64((o + 0x10) as usize),
                            sh_offset: self.read64((o + 0x18) as usize),
                            sh_size: self.read64((o + 0x20) as usize),
                            sh_link: self.read32((o + 0x28) as usize),
                            sh_info: self.read32((o + 0x2c) as usize),
                            sh_addralign: self.read64((o + 0x30) as usize),
                            sh_entsize: self.read64((o + 0x38) as usize),
                        },
                    ),
                    None => None,
                }
            },
        }
    }

    /// Whether the eight bytes at offset `name` are \".tohost\" with its
    /// terminating zero.
    pub open spec fn spec_names_tohost(&self, name: u64) -> bool {
        name <= self.data.len() as u64 && (self.data.len() as u64 - name) >= 8 && self.read64(
            name as usize,
        ) == TOHOST
    }

    #[verifier::when_used_as_spec(spec_names_tohost)]
    pub fn names_tohost(&self, name: u64) -> (b: bool)
        ensures
            b == self.spec_names_tohost(name),
    {
        name <= self.data.len() as u64 && (self.data.len() as u64 - name) >= 8 && self.read64(
            name as usize,
        ) == TOHOST
    }

    /// The offset of entry `index` of a table that starts at `start` and
    /// whose entries have `size` bytes.
    pub open spec fn entry_offset(start: u64, size: u16, index: int) -> int {
        start + size * index
    }

    /// The program header at `index` of the table that the file header
    /// describes.
    pub open spec fn program_header(&self, elf_header: &ElfHeader, index: int) -> Option<
        ProgramHeader,
    > {
        let offset = Self::entry_offset(elf_header.e_phoff, elf_header.e_phentsize, index);
        if offset <= u64::MAX {
            self.spec_program_header_at(elf_header.e_indent.ei_classs, offset as u64)
        } else {
            None
        }
    }

    /// The program headers of the file, in the order of the table; `None`
    /// if one of them does not lie within the data.
    pub open spec fn program_headers(&self, elf_header: &ElfHeader) -> Option<Seq<ProgramHeader>> {
        if forall|i: int|
            0 <= i < elf_header.e_phnum ==> (#[trigger] self.program_header(elf_header, i)) is Some {
            Some(
                Seq::new(
                    elf_header.e_phnum as nat,
                    |i: int| self.program_header(elf_header, i).unwrap(),
                ),
            )
        } else {
            None
        }
    }

    /// The section header at `index` of the table that the file header
    /// describes.
    pub open spec fn section_header(&self, elf_header: &ElfHeader, index: int) -> Option<
        SectionHeader,
    > {
        let offset = Self::entry_offset(elf_header.e_shoff, elf_header.e_shentsize, index);
        if offset <= u64::MAX {
            self.spec_section_header_at(elf_header.e_indent.ei_classs, offset as u64)
        } else {
            None
        }
    }

    /// The section headers of the file, in the order of the table; `None`
    /// if one of them does not lie within the data or has a type that is not
    /// known.
    pub open spec fn section_headers(&self, elf_header: &ElfHeader) -> Option<Seq<SectionHeader>> {
        if forall|i: int|
            0 <= i < elf_header.e_shnum ==> (#[trigger] self.section_header(elf_header, i)) is Some {
            Some(
                Seq::new(
                    elf_header.e_shnum as nat,
                    |i: int| self.section_header(elf_header, i).unwrap(),
                ),
            )
        } else {
            None
        }
    }

    /// Reads the program header table.
    pub fn get_program_header(&self, elf_header: &ElfHeader) -> (r: Option<Vec<ProgramHeader>>)
        ensures
            match r {
                Some(headers) => self.program_headers(elf_header) == Some(headers@),
                None => self.program_headers(elf_header) is None,
            },
    {
        let mut phs: Vec<ProgramHeader> = Vec::new();
        let mut i: u16 = 0;
        while i < elf_header.e_phnum
            invariant
                i <= elf_header.e_phnum,
                phs@.len() == i,
                forall|k: int|
                    0 <= k < i ==> (#[trigger] self.program_header(elf_header, k)) == Some(phs@[k]),
            decreases elf_header.e_phnum - i,
        {
            assert((elf_header.e_phentsize as u64) * (i as u64) <= 0xffff * 0xffff) by (nonlinear_arith)
                requires
                    elf_header.e_phentsize <= 0xffff,
                    i <= 0xffff,
            ;
            let header: Option<ProgramHeader> = match elf_header.e_phoff.checked_add(
                (elf_header.e_phentsize as u64) * (i as u64),
            ) {
                Some(offset) => self.program_header_at(elf_header.e_indent.ei_classs, offset),
                None => None,
            };
            assert(header == self.program_header(elf_header, i as int));
            match header {
                Some(header) => {
                    phs.push(header);
                },
                None => {
                    return None;
                },
            }
            i += 1;
        }
        assert(self.program_headers(elf_header).unwrap() =~= phs@);
        Some(phs)
    }

    /// Reads the section header table.
    pub fn get_section_header(&self, elf_header: &ElfHeader) -> (r: Option<Vec<SectionHeader>>)
        ensures
            match r {
                Some(headers) => self.section_headers(elf_header) == Some(headers@),
                None => self.section_headers(elf_header) is None,
            },
    {
        let mut shs: Vec<SectionHeader> = Vec::new();
        let mut i: u16 = 0;
        while i < elf_header.e_shnum
            invariant
                i <= elf_header.e_shnum,
                shs@.len() == i,
                forall|k: int|
                    0 <= k < i ==> (#[trigger] self.section_header(elf_header, k)) == Some(shs@[k]),
            decreases elf_header.e_shnum - i,
        {
            assert((elf_header.e_shentsize as u64) * (i as u64) <= 0xffff * 0xffff) by (nonlinear_arith)
                requires
                    elf_header.e_shentsize <= 0xffff,
                    i <= 0xffff,
            ;
            let header: Option<SectionHeader> = match elf_header.e_shoff.checked_add(
                (elf_header.e_shentsize as u64) * (i as u64),
            ) {
                Some(offset) => self.section_header_at(elf_header.e_indent.ei_classs, offset),
                None => None,
            };
            assert(header == self.section_header(elf_header, i as int));
            match header {
                Some(header) => {
                    shs.push(header);
                },
                None => {
                    return None;
                },
            }
            i += 1;
        }
        assert(self.section_headers(elf_header).unwrap() =~= shs@);
        Some(shs)
    }

    /// Whether the section `section` is named ".tohost" in the string table `table`.
    pub open spec fn is_tohost(&self, section: SectionHeader, table: SectionHeader) -> bool {
        section.sh_name + table.sh_offset <= u64::MAX && self.spec_names_tohost(
            (section.sh_name + table.sh_offset) as u64,
        )
    }

    /// Whether the section `section` is named ".tohost" in one of the string tables.
    pub open spec fn is_tohost_in(&self, section: SectionHeader, tables: Seq<SectionHeader>) -> bool {
        exists|j: int| 0 <= j < tables.len() && self.is_tohost(section, #[trigger] tables[j])
    }

    /// The index of the first of `sections`, from `from` on, that one of
    /// the string tables names ".tohost"; the number of sections if there is
    /// none.
    pub open spec fn first_tohost(
        &self,
        sections: Seq<SectionHeader>,
        tables: Seq<SectionHeader>,
        from: int,
    ) -> int
        decreases sections.len() - from,
    {
        if from < 0 || from >= sections.len() {
            sections.len() as int
        } else if self.is_tohost_in(sections[from], tables) {
            from
        } else {
            self.first_tohost(sections, tables, from + 1)
        }
    }

    /// The address of the first of `sections` that one of the string
    /// tables names ".tohost".
    pub open spec fn tohost_address(
        &self,
        sections: Seq<SectionHeader>,
        tables: Seq<SectionHeader>,
    ) -> Option<u64> {
        let k = self.first_tohost(sections, tables, 0);
        if k < sections.len() {
            Some(sections[k].sh_addr)
        } else {
            None
        }
    }

    /// The address of the first of the sections `progbits_sec_headers`
    /// that one of the string tables `strtab_sec_headers` names ".tohost".
    pub fn search_tohost(
        &self,
        progbits_sec_headers: &Vec<SectionHeader>,
        strtab_sec_headers: &Vec<SectionHeader>,
    ) -> (r: Option<u64>)
        ensures
            r == self.tohost_address(progbits_sec_headers@, strtab_sec_headers@),
    {
        let mut i: usize = 0;
        while i < progbits_sec_headers.len()
            invariant
                i <= progbits_sec_headers@.len(),
                self.first_tohost(progbits_sec_headers@, strtab_sec_headers@, 0)
                    == self.first_tohost(progbits_sec_headers@, strtab_sec_headers@, i as int),
            decreases progbits_sec_headers.len() - i,
        {
            let section: SectionHeader = progbits_sec_headers[i];
            let mut j: usize = 0;
            while j < strtab_sec_headers.len()
                invariant
                    j <= strtab_sec_headers@.len(),
                    section == progbits_sec_headers@[i as int],
                    i < progbits_sec_headers@.len(),
                    self.first_tohost(progbits_sec_headers@, strtab_sec_headers@, 0)
                        == self.first_tohost(progbits_sec_headers@, strtab_sec_headers@, i as int),
                    forall|k: int|
                        0 <= k < j ==> !self.is_tohost(section, #[trigger] strtab_sec_headers@[k]),
                decreases strtab_sec_headers.len() - j,
            {
                let table: SectionHeader = strtab_sec_headers[j];
                let found: bool = match (section.sh_name as u64).checked_add(table.sh_offset) {
                    Some(name) => self.names_tohost(name),
                    None => false,
                };
                if found {
                    assert(self.is_tohost(section, strtab_sec_headers@[j as int]));
                    assert(self.is_tohost_in(progbits_sec_headers@[i as int], strtab_sec_headers@));
                    return Some(section.sh_addr);
                }
                j += 1;
            }
            assert(!self.is_tohost_in(progbits_sec_headers@[i as int], strtab_sec_headers@));
            i += 1;
        }
        None
    }
}

} // verus!
