use vstd::prelude::*;

use crate::peripherals::fu540_c000::clint::Clint;

verus! {

/// A core-local timer: it counts ticks and raises the software and timer
/// interrupts of the harts.
pub trait Timer {
    fn tick(&mut self);

    fn is_pending_software_interrupt(&mut self, core: usize) -> bool;

    fn is_pending_timer_interrupt(&mut self, core: usize) -> bool;

    fn read(&mut self, addr: u64) -> u32;

    fn write(&mut self, addr: u64, data: u32);
}

impl Timer for Clint {
    fn tick(&mut self)
        ensures
            *final(self) == old(self).ticked(),
    {
        *self = self.ticked();
    }

    fn is_pending_software_interrupt(&mut self, core: usize) -> (pending: bool)
        ensures
            *final(self) == *old(self),
            pending == old(self).software_pending(core),
    {
        self.software_pending(core)
    }

    fn is_pending_timer_interrupt(&mut self, core: usize) -> (pending: bool)
        ensures
            *final(self) == *old(self),
            pending == old(self).timer_pending(core),
    {
        self.timer_pending(core)
    }

    fn read(&mut self, addr: u64) -> (data: u32)
        ensures
            *final(self) == *old(self),
            data == old(self).spec_read(addr),
    {
        Clint::read(self, addr)
    }

    fn write(&mut self, addr: u64, data: u32)
        ensures
            *final(self) == old(self).written(addr, data),
    {
        *self = self.written(addr, data);
    }
}

} // verus!
