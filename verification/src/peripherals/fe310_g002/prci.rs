use vstd::prelude::*;

verus! {

/// The clock is always ready: bit 31 of the oscillator and PLL registers
/// reads as set.
pub const PRCI_READY: u32 = 0x8000_0000;

/// The registers of the FE310 power, reset, clock and interrupt block.
#[derive(Clone, Copy, Debug, PartialEq, Eq, Structural)]
pub struct Prci {
    pub hfrosccfg: u32,
    pub hfxosccfg: u32,
    pub pllcfg: u32,
    pub plloutdiv: u32,
    pub procmoncfg: u32,
}

impl Prci {
    /// All registers zero.
    pub open spec fn spec_new() -> Prci {
        Prci { hfrosccfg: 0, hfxosccfg: 0, pllcfg: 0, plloutdiv: 0, procmoncfg: 0 }
    }

    #[verifier::when_used_as_spec(spec_new)]
    pub fn new() -> (prci: Prci)
        ensures
            prci == Self::spec_new(),
    {
        Prci { hfrosccfg: 0, hfxosccfg: 0, pllcfg: 0, plloutdiv: 0, procmoncfg: 0 }
    }

    /// The register at offset `addr & 0xff`, the oscillators ready and the PLL
    /// locked; 0 at an offset that holds no register.
    pub open spec fn spec_read(&self, addr: u64) -> u32 {
        let reg: u64 = addr & 0xff;
        if reg == 0x00 {
            self.hfrosccfg | PRCI_READY
        } else if reg == 0x04 {
            self.hfxosccfg | PRCI_READY
        } else if reg == 0x08 {
            self.pllcfg | PRCI_READY
        } else if reg == 0x0c {
            self.plloutdiv
        } else if reg == 0xf0 {
            self.procmoncfg
        } else {
            0
        }
    }

    #[verifier::when_used_as_spec(spec_read)]
    pub fn read(&self, addr: u64) -> (data: u32)
        ensures
            data == self.spec_read(addr),
    {
        let reg: u64 = addr & 0xff;
        if reg == 0x00 {
            self.hfrosccfg | PRCI_READY
        } else if reg == 0x04 {
            self.hfxosccfg | PRCI_READY
        } else if reg == 0x08 {
            self.pllcfg | PRCI_READY
        } else if reg == 0x0c {
            self.plloutdiv
        } else if reg == 0xf0 {
            self.procmoncfg
        } else {
            0
        }
    }

    /// The registers after `data` was written at offset `addr & 0xff`. The ready
    /// bit of the oscillator and PLL registers is not stored; a write to an
    /// offset that holds no register changes nothing.
    pub open spec fn spec_written(self, addr: u64, data: u32) -> Prci {
        let reg: u64 = addr & 0xff;
        if reg == 0x00 {
            Prci { hfrosccfg: data & 0x7fff_ffff, ..self }
        } else if reg == 0x04 {
            Prci { hfxosccfg: data & 0x7fff_ffff, ..self }
        } else if reg == 0x08 {
            Prci { pllcfg: data & 0x7fff_ffff, ..self }
        } else if reg == 0x0c {
            Prci { plloutdiv: data, ..self }
        } else if reg == 0xf0 {
            Prci { procmoncfg: data, ..self }
        } else {
            self
        }
    }

    #[verifier::when_used_as_spec(spec_written)]
    pub fn written(self, addr: u64, data: u32) -> (prci: Prci)
        ensures
            prci == self.spec_written(addr, data),
    {
        let reg: u64 = addr & 0xff;
        if reg == 0x00 {
            Prci { hfrosccfg: data & 0x7fff_ffff, ..self }
        } else if reg == 0x04 {
            Prci { hfxosccfg: data & 0x7fff_ffff, ..self }
        } else if reg == 0x08 {
            Prci { pllcfg: data & 0x7fff_ffff, ..self }
        } else if reg == 0x0c {
            Prci { plloutdiv: data, ..self }
        } else if reg == 0xf0 {
            Prci { procmoncfg: data, ..self }
        } else {
            self
        }
    }

    /// The block has no clocked behaviour.
    pub fn tick(&mut self)
        ensures
            *final(self) == *old(self),
    {
    }

    pub fn write(&mut self, addr: u64, data: u32)
        ensures
            *final(self) == old(self).written(addr, data),
    {
        *self = self.written(addr, data);
    }
}

} // verus!
