use vstd::prelude::*;

use crate::peripherals::fu540_c000::plic::{Plic, PLIC_CORE_MAX};

verus! {

/// An interrupt controller: it arbitrates among the pending sources for
/// the contexts of a hart and raises one interrupt line for each privilege
/// level.
pub trait Intc {
    fn tick(&mut self, core: usize, interrupts: Vec<usize>) -> Vec<bool>
        requires
            core < PLIC_CORE_MAX,
    ;

    fn read(&mut self, addr: u64) -> u32;

    fn write(&mut self, addr: u64, data: u32);
}

impl Intc for Plic {
    fn tick(&mut self, core: usize, interrupts: Vec<usize>) -> (irqs: Vec<bool>)
        ensures
            irqs@ == seq![
                false,
                old(self)@.supervisor_line(core, interrupts@),
                false,
                old(self)@.machine_line(core, interrupts@),
            ],
            old(self)@.ticked(core, interrupts@, final(self)@),
    {
        Plic::tick(self, core, interrupts)
    }

    fn read(&mut self, addr: u64) -> (data: u32)
        ensures
            final(self)@ == old(self)@,
            data == old(self)@.read(addr),
    {
        Plic::read(self, addr)
    }

    fn write(&mut self, addr: u64, data: u32)
        ensures
            final(self)@ == old(self)@.written(addr, data),
    {
        Plic::write(self, addr, data)
    }
}

} // verus!
