use vstd::prelude::*;

use crate::bus::bus_fe310::{BusFe310, BusFe310View, DTIM_SIZE, FU540_DRAM_SIZE};
use crate::bus::bus_qemu_virt::{BusQemuVirt, BusQemuVirtView};
use crate::console::Console;
use crate::machine::Machine;

verus! {

/// The devices that can be given data, or asked for their address.
#[derive(Clone, Copy, Debug, PartialEq, Eq, Structural)]
pub enum Device {
    Dram,
    SpiFlash,
    Disk,
    DTB,
}

/// The state of a machine's bus.
pub enum BusView {
    Fe310(BusFe310View),
    QemuVirt(BusQemuVirtView),
}

impl BusView {
    /// The bus of `machine` after reset. The FU540 is the FE310 with
    /// external DRAM in place of the data memory.
    pub open spec fn reset(machine: Machine) -> BusView {
        match machine {
            Machine::SiFiveE => BusView::Fe310(BusFe310View::reset(DTIM_SIZE as nat)),
            Machine::SiFiveU => BusView::Fe310(BusFe310View::reset(FU540_DRAM_SIZE as nat)),
            Machine::QemuVirt => BusView::QemuVirt(BusQemuVirtView::reset()),
        }
    }

    /// The state after a read of 8 bits at the physical address `addr`, and
    /// the value read.
    #[verifier::opaque]
    pub open spec fn read8(self, addr: u64) -> (BusView, Result<u8, ()>) {
        match self {
            BusView::Fe310(bus) => (BusView::Fe310(bus.read8(addr).0), bus.read8(addr).1),
            BusView::QemuVirt(bus) => (BusView::QemuVirt(bus.read8(addr).0), bus.read8(addr).1),
        }
    }

    /// The state after a read of 16 bits at the physical address `addr`, and
    /// the value read.
    #[verifier::opaque]
    pub open spec fn read16(self, addr: u64) -> (BusView, Result<u16, ()>) {
        match self {
            BusView::Fe310(bus) => (BusView::Fe310(bus.read16(addr).0), bus.read16(addr).1),
            BusView::QemuVirt(bus) => (BusView::QemuVirt(bus.read16(addr).0), bus.read16(addr).1),
        }
    }

    /// The state after a read of 32 bits at the physical address `addr`, and
    /// the value read.
    #[verifier::opaque]
    pub open spec fn read32(self, addr: u64) -> (BusView, Result<u32, ()>) {
        match self {
            BusView::Fe310(bus) => (BusView::Fe310(bus.read32(addr).0), bus.read32(addr).1),
            BusView::QemuVirt(bus) => (BusView::QemuVirt(bus.read32(addr).0), bus.read32(addr).1),
        }
    }

    /// The state after a read of 64 bits at the physical address `addr`, and
    /// the value read.
    #[verifier::opaque]
    pub open spec fn read64(self, addr: u64) -> (BusView, Result<u64, ()>) {
        match self {
            BusView::Fe310(bus) => (BusView::Fe310(bus.read64(addr).0), bus.read64(addr).1),
            BusView::QemuVirt(bus) => (BusView::QemuVirt(bus.read64(addr).0), bus.read64(addr).1),
        }
    }

    /// The state after a write of 8 bits at the physical address `addr`.
    #[verifier::opaque]
    pub open spec fn write8(self, addr: u64, data: u8) -> (BusView, Result<(), ()>) {
        match self {
            BusView::Fe310(bus) => (
                BusView::Fe310(bus.write8(addr, data).0),
                bus.write8(addr, data).1,
            ),
            BusView::QemuVirt(bus) => (
                BusView::QemuVirt(bus.write8(addr, data).0),
                bus.write8(addr, data).1,
            ),
        }
    }

    /// The state after a write of 16 bits at the physical address `addr`.
    #[verifier::opaque]
    pub open spec fn write16(self, addr: u64, data: u16) -> (BusView, Result<(), ()>) {
        match self {
            BusView::Fe310(bus) => (
                BusView::Fe310(bus.write16(addr, data).0),
                bus.write16(addr, data).1,
            ),
            BusView::QemuVirt(bus) => (
                BusView::QemuVirt(bus.write16(addr, data).0),
                bus.write16(addr, data).1,
            ),
        }
    }

    /// The state after a write of 32 bits at the physical address `addr`.
    #[verifier::opaque]
    pub open spec fn write32(self, addr: u64, data: u32) -> (BusView, Result<(), ()>) {
        match self {
            BusView::Fe310(bus) => (
                BusView::Fe310(bus.write32(addr, data).0),
                bus.write32(addr, data).1,
            ),
            BusView::QemuVirt(bus) => (
                BusView::QemuVirt(bus.write32(addr, data).0),
                bus.write32(addr, data).1,
            ),
        }
    }

    /// The state after a write of 64 bits at the physical address `addr`.
    #[verifier::opaque]
    pub open spec fn write64(self, addr: u64, data: u64) -> (BusView, Result<(), ()>) {
        match self {
            BusView::Fe310(bus) => (
                BusView::Fe310(bus.write64(addr, data).0),
                bus.write64(addr, data).1,
            ),
            BusView::QemuVirt(bus) => (
                BusView::QemuVirt(bus.write64(addr, data).0),
                bus.write64(addr, data).1,
            ),
        }
    }

    /// Whether `len` bytes of data can be installed in `device`.
    pub open spec fn accepts(self, device: Device, len: nat) -> bool {
        match self {
            BusView::Fe310(bus) => bus.accepts(device, len),
            BusView::QemuVirt(bus) => bus.accepts(device, len),
        }
    }

    /// The state after `data` was installed in `device`.
    pub open spec fn with_device_data(self, device: Device, data: Seq<u8>) -> BusView {
        match self {
            BusView::Fe310(bus) => BusView::Fe310(bus.with_device_data(device, data)),
            BusView::QemuVirt(bus) => BusView::QemuVirt(bus.with_device_data(device, data)),
        }
    }

    /// The address at which `device` starts, for the devices that the machine
    /// gives an address.
    pub open spec fn base_address(self, device: Device) -> Option<u64> {
        match self {
            BusView::Fe310(_) => BusFe310View::base_address(device),
            BusView::QemuVirt(_) => BusQemuVirtView::base_address(device),
        }
    }

    /// Whether the software interrupt of hart 0 is pending.
    pub open spec fn software_pending(self) -> bool {
        match self {
            BusView::Fe310(bus) => bus.timer.software_pending(0),
            BusView::QemuVirt(bus) => bus.timer.software_pending(0),
        }
    }

    /// Whether the timer interrupt of hart 0 is pending.
    pub open spec fn timer_pending(self) -> bool {
        match self {
            BusView::Fe310(bus) => bus.timer.timer_pending(0),
            BusView::QemuVirt(bus) => bus.timer.timer_pending(0),
        }
    }

    /// Whether `next` and `irqs` are the state and the interrupt lines after
    /// a tick, for some answers of the consoles.
    pub open spec fn ticked(self, next: BusView, irqs: Seq<bool>) -> bool {
        match self {
            BusView::Fe310(bus) => next matches BusView::Fe310(n) && bus.stepped(n, irqs),
            BusView::QemuVirt(bus) => next matches BusView::QemuVirt(n) && bus.stepped(n, irqs),
        }
    }
}

/// The bus of a machine: the memory map that forwards reads and writes of
/// 8, 16, 32 and 64 bits to memories and devices.
pub enum Bus {
    Fe310(BusFe310),
    QemuVirt(BusQemuVirt),
}

impl View for Bus {
    type V = BusView;

    open spec fn view(&self) -> BusView {
        match self {
            Bus::Fe310(bus) => BusView::Fe310(bus@),
            Bus::QemuVirt(bus) => BusView::QemuVirt(bus@),
        }
    }
}

impl Bus {
    /// The bus of `machine` after reset, with `console` behind its first
    /// UART. The FU540 is the FE310 with external DRAM.
    pub fn new(machine: Machine, console: Box<dyn Console>) -> (bus: Self)
        ensures
            bus@ == BusView::reset(machine),
    {
        match machine {
            Machine::SiFiveE => Bus::Fe310(BusFe310::new(console)),
            Machine::SiFiveU => Bus::Fe310(BusFe310::with_memory(console, FU540_DRAM_SIZE)),
            Machine::QemuVirt => Bus::QemuVirt(BusQemuVirt::new(console)),
        }
    }

    /// Whether `len` bytes of data can be installed in `device`.
    pub fn accepts_device_data(&self, device: Device, len: usize) -> (b: bool)
        ensures
            b == self@.accepts(device, len as nat),
    {
        match self {
            Bus::Fe310(bus) => bus.accepts_device_data(device, len),
            Bus::QemuVirt(bus) => bus.accepts_device_data(device, len),
        }
    }

    /// Installs `data` in `device`.
    pub fn set_device_data(&mut self, device: Device, data: Vec<u8>)
        requires
            old(self)@.accepts(device, data@.len()),
        ensures
            final(self)@ == old(self)@.with_device_data(device, data@),
    {
        match self {
            Bus::Fe310(bus) => bus.set_device_data(device, data),
            Bus::QemuVirt(bus) => bus.set_device_data(device, data),
        }
    }

    /// Whether the machine gives `device` an address.
    pub fn has_base_address(&self, device: Device) -> (b: bool)
        ensures
            b == (self@.base_address(device) is Some),
    {
        match self {
            Bus::Fe310(_) => match device {
                Device::SpiFlash => true,
                Device::DTB => true,
                _ => false,
            },
            Bus::QemuVirt(_) => match device {
                Device::Dram => true,
                Device::DTB => true,
                _ => false,
            },
        }
    }

    /// The address at which `device` starts.
    pub fn get_base_address(&mut self, device: Device) -> (addr: u64)
        requires
            old(self)@.base_address(device) is Some,
        ensures
            final(self)@ == old(self)@,
            Some(addr) == old(self)@.base_address(device),
    {
        match self {
            Bus::Fe310(bus) => bus.get_base_address(device),
            Bus::QemuVirt(bus) => bus.get_base_address(device),
        }
    }

    /// The console of the machine, the one behind its first UART, to read
    /// from it and to write to it; the machine stays as it is.
    pub fn get_console(&mut self) -> (console: &mut Box<dyn Console>)
        ensures
            match *old(self) {
                Bus::Fe310(bus) => *console == bus.uart0.console,
                Bus::QemuVirt(bus) => *console == bus.uart.console,
            },
            match *final(self) {
                Bus::Fe310(bus) => bus.uart0.console == *final(console),
                Bus::QemuVirt(bus) => bus.uart.console == *final(console),
            },
            final(self)@ == old(self)@,
    {
        match self {
            Bus::Fe310(bus) => bus.get_console(),
            Bus::QemuVirt(bus) => bus.get_console(),
        }
    }

    /// Advances every device by one tick and returns the interrupt lines,
    /// one for each privilege level.
    pub fn tick(&mut self) -> (irqs: Vec<bool>)
        ensures
            old(self)@.ticked(final(self)@, irqs@),
            irqs@.len() == 4,
    {
        match self {
            Bus::Fe310(bus) => bus.tick(),
            Bus::QemuVirt(bus) => bus.tick(),
        }
    }

    pub fn is_pending_software_interrupt(&mut self, core: usize) -> (pending: bool)
        ensures
            final(self)@ == old(self)@,
            core == 0 ==> pending == old(self)@.software_pending(),
            core != 0 ==> !pending,
    {
        match self {
            Bus::Fe310(bus) => bus.is_pending_software_interrupt(core),
            Bus::QemuVirt(bus) => bus.is_pending_software_interrupt(core),
        }
    }

    pub fn is_pending_timer_interrupt(&mut self, core: usize) -> (pending: bool)
        ensures
            final(self)@ == old(self)@,
            core == 0 ==> pending == old(self)@.timer_pending(),
            core != 0 ==> !pending,
    {
        match self {
            Bus::Fe310(bus) => bus.is_pending_timer_interrupt(core),
            Bus::QemuVirt(bus) => bus.is_pending_timer_interrupt(core),
        }
    }

    pub fn read8(&mut self, addr: u64) -> (r: Result<u8, ()>)
        ensures
            (final(self)@, r) == old(self)@.read8(addr),
    {
        reveal(BusView::read8);
        match self {
            Bus::Fe310(bus) => bus.read8(addr),
            Bus::QemuVirt(bus) => bus.read8(addr),
        }
    }

    pub fn read16(&mut self, addr: u64) -> (r: Result<u16, ()>)
        ensures
            (final(self)@, r) == old(self)@.read16(addr),
    {
        reveal(BusView::read16);
        match self {
            Bus::Fe310(bus) => bus.read16(addr),
            Bus::QemuVirt(bus) => bus.read16(addr),
        }
    }

    pub fn read32(&mut self, addr: u64) -> (r: Result<u32, ()>)
        ensures
            (final(self)@, r) == old(self)@.read32(addr),
    {
        reveal(BusView::read32);
        match self {
            Bus::Fe310(bus) => bus.read32(addr),
            Bus::QemuVirt(bus) => bus.read32(addr),
        }
    }

    pub fn read64(&mut self, addr: u64) -> (r: Result<u64, ()>)
        ensures
            (final(self)@, r) == old(self)@.read64(addr),
    {
        reveal(BusView::read64);
        match self {
            Bus::Fe310(bus) => bus.read64(addr),
            Bus::QemuVirt(bus) => bus.read64(addr),
        }
    }

    pub fn write8(&mut self, addr: u64, data: u8) -> (r: Result<(), ()>)
        ensures
            (final(self)@, r) == old(self)@.write8(addr, data),
    {
        reveal(BusView::write8);
        match self {
            Bus::Fe310(bus) => bus.write8(addr, data),
            Bus::QemuVirt(bus) => bus.write8(addr, data),
        }
    }

    pub fn write16(&mut self, addr: u64, data: u16) -> (r: Result<(), ()>)
        ensures
            (final(self)@, r) == old(self)@.write16(addr, data),
    {
        reveal(BusView::write16);
        match self {
            Bus::Fe310(bus) => bus.write16(addr, data),
            Bus::QemuVirt(bus) => bus.write16(addr, data),
        }
    }

    pub fn write32(&mut self, addr: u64, data: u32) -> (r: Result<(), ()>)
        ensures
            (final(self)@, r) == old(self)@.write32(addr, data),
    {
        reveal(BusView::write32);
        match self {
            Bus::Fe310(bus) => bus.write32(addr, data),
            Bus::QemuVirt(bus) => bus.write32(addr, data),
        }
    }

    pub fn write64(&mut self, addr: u64, data: u64) -> (r: Result<(), ()>)
        ensures
            (final(self)@, r) == old(self)@.write64(addr, data),
    {
        reveal(BusView::write64);
        match self {
            Bus::Fe310(bus) => bus.write64(addr, data),
            Bus::QemuVirt(bus) => bus.write64(addr, data),
        }
    }
}

} // verus!
