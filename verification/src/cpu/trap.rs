use vstd::prelude::*;

verus! {

/// A synchronous exception together with its trap value (the offending
/// address or the address of the offending instruction).
#[derive(Clone, Copy, Debug, PartialEq, Eq, Structural)]
pub struct Trap {
    pub exception: Exception,
    pub value: u64,
}

#[derive(Clone, Copy, Debug, PartialEq, Eq, Structural)]
pub enum Exception {
    InstructionAddressMisaligned,
    InstructionAccessFault,
    IllegalInstruction,
    Breakpoint,
    LoadAddressMisaligned,
    LoadAccessFault,
    StoreAddressMisaligned,
    StoreAccessFault,
    EnvironmentCallFromUMode,
    EnvironmentCallFromSMode,
    EnvironmentCallFromMMode,
    InstructionPageFault,
    LoadPageFault,
    StorePageFault,
}

#[derive(Clone, Copy, Debug, PartialEq, Eq, Structural)]
pub enum Interrupt {
    UserSoftware,
    SupervisorSoftware,
    MachineSoftware,
    UserTimer,
    SupervisorTimer,
    MachineTimer,
    UserExternal,
    SupervisorExternal,
    MachineExternal,
}

impl Exception {
    /// The exception code that the cause register reports.
    pub open spec fn spec_code(self) -> u8 {
        match self {
            Exception::InstructionAddressMisaligned => 0,
            Exception::InstructionAccessFault => 1,
            Exception::IllegalInstruction => 2,
            Exception::Breakpoint => 3,
            Exception::LoadAddressMisaligned => 4,
            Exception::LoadAccessFault => 5,
            Exception::StoreAddressMisaligned => 6,
            Exception::StoreAccessFault => 7,
            Exception::EnvironmentCallFromUMode => 8,
            Exception::EnvironmentCallFromSMode => 9,
            Exception::EnvironmentCallFromMMode => 11,
            Exception::InstructionPageFault => 12,
            Exception::LoadPageFault => 13,
            Exception::StorePageFault => 15,
        }
    }

    #[verifier::when_used_as_spec(spec_code)]
    pub fn code(self) -> (c: u8)
        ensures
            c == self.spec_code(),
    {
        match self {
            Exception::InstructionAddressMisaligned => 0,
            Exception::InstructionAccessFault => 1,
            Exception::IllegalInstruction => 2,
            Exception::Breakpoint => 3,
            Exception::LoadAddressMisaligned => 4,
            Exception::LoadAccessFault => 5,
            Exception::StoreAddressMisaligned => 6,
            Exception::StoreAccessFault => 7,
            Exception::EnvironmentCallFromUMode => 8,
            Exception::EnvironmentCallFromSMode => 9,
            Exception::EnvironmentCallFromMMode => 11,
            Exception::InstructionPageFault => 12,
            Exception::LoadPageFault => 13,
            Exception::StorePageFault => 15,
        }
    }
}

impl Interrupt {
    /// The interrupt code: the position of the interrupt's bit in the
    /// pending and enable registers.
    pub open spec fn spec_code(self) -> u8 {
        match self {
            Interrupt::UserSoftware => 0,
            Interrupt::SupervisorSoftware => 1,
            Interrupt::MachineSoftware => 3,
            Interrupt::UserTimer => 4,
            Interrupt::SupervisorTimer => 5,
            Interrupt::MachineTimer => 7,
            Interrupt::UserExternal => 8,
            Interrupt::SupervisorExternal => 9,
            Interrupt::MachineExternal => 11,
        }
    }

    #[verifier::when_used_as_spec(spec_code)]
    pub fn code(self) -> (c: u8)
        ensures
            c == self.spec_code(),
    {
        match self {
            Interrupt::UserSoftware => 0,
            Interrupt::SupervisorSoftware => 1,
            Interrupt::MachineSoftware => 3,
            Interrupt::UserTimer => 4,
            Interrupt::SupervisorTimer => 5,
            Interrupt::MachineTimer => 7,
            Interrupt::UserExternal => 8,
            Interrupt::SupervisorExternal => 9,
            Interrupt::MachineExternal => 11,
        }
    }

    /// The interrupt's bit in the pending and enable registers.
    pub open spec fn spec_mask(self) -> u64 {
        match self {
            Interrupt::UserSoftware => 0x001,
            Interrupt::SupervisorSoftware => 0x002,
            Interrupt::MachineSoftware => 0x008,
            Interrupt::UserTimer => 0x010,
            Interrupt::SupervisorTimer => 0x020,
            Interrupt::MachineTimer => 0x080,
            Interrupt::UserExternal => 0x100,
            Interrupt::SupervisorExternal => 0x200,
            Interrupt::MachineExternal => 0x800,
        }
    }

    #[verifier::when_used_as_spec(spec_mask)]
    pub fn mask(self) -> (m: u64)
        ensures
            m == self.spec_mask(),
    {
        match self {
            Interrupt::UserSoftware => 0x001,
            Interrupt::SupervisorSoftware => 0x002,
            Interrupt::MachineSoftware => 0x008,
            Interrupt::UserTimer => 0x010,
            Interrupt::SupervisorTimer => 0x020,
            Interrupt::MachineTimer => 0x080,
            Interrupt::UserExternal => 0x100,
            Interrupt::SupervisorExternal => 0x200,
            Interrupt::MachineExternal => 0x800,
        }
    }
}

} // verus!
