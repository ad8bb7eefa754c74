// The SiFive FE310 system on a chip.
use vstd::prelude::*;

use crate::bus::bus::Device;
use crate::console::{Console, TtyDummy};
use crate::peripherals::fe310_g002::fe310_uart::{Fe310Uart, Fe310UartView};
use crate::peripherals::fe310_g002::gpio::Gpio;
use crate::peripherals::fe310_g002::prci::Prci;
use crate::peripherals::fu540_c000::clint::Clint;
use crate::peripherals::fu540_c000::plic::{Plic, PlicView};
use crate::peripherals::memory::{
    overlay, ram_read16, ram_read32, ram_read64, ram_read8, ram_write16, ram_write32,
    ram_write64, ram_write8, zeros, Memory,
};

verus! {

pub const DTB_ADDRESS_START: u64 = 0x0000_1020;

pub const TIMER_ADDRESS_START: u64 = 0x0200_0000;
pub const TIMER_ADDRESS_END: u64 = 0x0200_FFFF;

pub const INTC_ADDRESS_START: u64 = 0x0C00_0000;
pub const INTC_ADDRESS_END: u64 = 0x0FFF_FFFF;

pub const PRCI_ADDRESS_START: u64 = 0x1000_8000;
pub const PRCI_ADDRESS_END: u64 = 0x1000_8FFF;

pub const GPIO_ADDRESS_START: u64 = 0x1001_2000;
pub const GPIO_ADDRESS_END: u64 = 0x1001_2FFF;

pub const UART0_ADDRESS_START: u64 = 0x1001_3000;
pub const UART0_ADDRESS_END: u64 = 0x1001_3FFF;

pub const UART1_ADDRESS_START: u64 = 0x1002_3000;
pub const UART1_ADDRESS_END: u64 = 0x1002_3FFF;

pub const SPIFLASH_ADDRESS_START: u64 = 0x2000_0000;
pub const SPIFLASH_ADDRESS_END: u64 = 0x3FFF_FFFF;

/// The start of the data memory: 16 KiB of tightly integrated memory on the
/// FE310, external DRAM on the FU540.
pub const DTIM_ADDRESS_START: u64 = 0x8000_0000;

pub const DTIM_SIZE: usize = 0x4000;
pub const FLASH_SIZE: usize = 0x2000_0000;

/// The size of the external DRAM of the FU540.
pub const FU540_DRAM_SIZE: usize = 0x1000_0000;

/// The interrupt source number of UART0.
pub const UART0_IRQ: usize = 3;

/// The interrupt source number of UART1.
pub const UART1_IRQ: usize = 4;

/// The device that an address belongs to, with the offset into the device.
#[derive(Clone, Copy, Debug, PartialEq, Eq, Structural)]
pub enum Fe310Region {
    Timer { offset: u64 },
    Intc { offset: u64 },
    Prci { offset: u64 },
    Gpio { offset: u64 },
    Uart0 { offset: u64 },
    Uart1 { offset: u64 },
    SpiFlash { offset: u64 },
    Dtim { offset: u64 },
    Unmapped,
}

/// The address map. The data memory takes every address from its start on;
/// an access beyond its size fails.
pub open spec fn spec_fe310_region(addr: u64) -> Fe310Region {
    if TIMER_ADDRESS_START <= addr && addr <= TIMER_ADDRESS_END {
        Fe310Region::Timer { offset: (addr - TIMER_ADDRESS_START) as u64 }
    } else if INTC_ADDRESS_START <= addr && addr <= INTC_ADDRESS_END {
        Fe310Region::Intc { offset: (addr - INTC_ADDRESS_START) as u64 }
    } else if PRCI_ADDRESS_START <= addr && addr <= PRCI_ADDRESS_END {
        Fe310Region::Prci { offset: (addr - PRCI_ADDRESS_START) as u64 }
    } else if GPIO_ADDRESS_START <= addr && addr <= GPIO_ADDRESS_END {
        Fe310Region::Gpio { offset: (addr - GPIO_ADDRESS_START) as u64 }
    } else if UART0_ADDRESS_START <= addr && addr <= UART0_ADDRESS_END {
        Fe310Region::Uart0 { offset: (addr - UART0_ADDRESS_START) as u64 }
    } else if UART1_ADDRESS_START <= addr && addr <= UART1_ADDRESS_END {
        Fe310Region::Uart1 { offset: (addr - UART1_ADDRESS_START) as u64 }
    } else if SPIFLASH_ADDRESS_START <= addr && addr <= SPIFLASH_ADDRESS_END {
        Fe310Region::SpiFlash { offset: (addr - SPIFLASH_ADDRESS_START) as u64 }
    } else if DTIM_ADDRESS_START <= addr {
        Fe310Region::Dtim { offset: (addr - DTIM_ADDRESS_START) as u64 }
    } else {
        Fe310Region::Unmapped
    }
}

#[verifier::when_used_as_spec(spec_fe310_region)]
pub fn fe310_region(addr: u64) -> (r: Fe310Region)
    ensures
        r == spec_fe310_region(addr),
{
    if TIMER_ADDRESS_START <= addr && addr <= TIMER_ADDRESS_END {
        Fe310Region::Timer { offset: (addr - TIMER_ADDRESS_START) as u64 }
    } else if INTC_ADDRESS_START <= addr && addr <= INTC_ADDRESS_END {
        Fe310Region::Intc { offset: (addr - INTC_ADDRESS_START) as u64 }
    } else if PRCI_ADDRESS_START <= addr && addr <= PRCI_ADDRESS_END {
        Fe310Region::Prci { offset: (addr - PRCI_ADDRESS_START) as u64 }
    } else if GPIO_ADDRESS_START <= addr && addr <= GPIO_ADDRESS_END {
        Fe310Region::Gpio { offset: (addr - GPIO_ADDRESS_START) as u64 }
    } else if UART0_ADDRESS_START <= addr && addr <= UART0_ADDRESS_END {
        Fe310Region::Uart0 { offset: (addr - UART0_ADDRESS_START) as u64 }
    } else if UART1_ADDRESS_START <= addr && addr <= UART1_ADDRESS_END {
        Fe310Region::Uart1 { offset: (addr - UART1_ADDRESS_START) as u64 }
    } else if SPIFLASH_ADDRESS_START <= addr && addr <= SPIFLASH_ADDRESS_END {
        Fe310Region::SpiFlash { offset: (addr - SPIFLASH_ADDRESS_START) as u64 }
    } else if DTIM_ADDRESS_START <= addr {
        Fe310Region::Dtim { offset: (addr - DTIM_ADDRESS_START) as u64 }
    } else {
        Fe310Region::Unmapped
    }
}

/// The state of the chip: its memories and the state of its devices.
pub struct BusFe310View {
    pub clock: u64,
    pub dtim: Seq<u8>,
    pub flash: Seq<u8>,
    pub timer: Clint,
    pub intc: PlicView,
    pub prci: Prci,
    pub uart0: Fe310UartView,
    pub uart1: Fe310UartView,
    pub gpio: Gpio,
}

impl BusFe310View {
    /// The chip after reset with `size` bytes of data memory: the memories
    /// zero, the devices reset.
    pub open spec fn reset(size: nat) -> BusFe310View {
        BusFe310View {
            clock: 0,
            dtim: zeros(size),
            flash: zeros(FLASH_SIZE as nat),
            timer: Clint::new(),
            intc: PlicView::reset(),
            prci: Prci::new(),
            uart0: Fe310UartView::reset(),
            uart1: Fe310UartView::reset(),
            gpio: Gpio::new(),
        }
    }

    /// The state after a read of 8 bits at `addr`, and the value read; an
    /// error where the address holds nothing that can be read at this width.
    /// Device registers are read as aligned words, 64 bits as two words, the
    /// low one first.
    pub open spec fn read8(self, addr: u64) -> (BusFe310View, Result<u8, ()>) {
        match fe310_region(addr) {
            Fe310Region::Timer { .. } => (self, Err(())),
            Fe310Region::Intc { .. } => (self, Err(())),
            Fe310Region::Prci { .. } => (self, Err(())),
            Fe310Region::Gpio { .. } => (self, Err(())),
            Fe310Region::Uart0 { .. } => (self, Err(())),
            Fe310Region::Uart1 { .. } => (self, Err(())),
            Fe310Region::SpiFlash { offset } => (self, ram_read8(self.flash, offset)),
            Fe310Region::Dtim { offset } => (self, ram_read8(self.dtim, offset)),
            Fe310Region::Unmapped => (self, Err(())),
        }
    }

    /// The state after a read of 16 bits at `addr`, and the value read; an
    /// error where the address holds nothing that can be read at this width.
    /// Device registers are read as aligned words, 64 bits as two words, the
    /// low one first.
    pub open spec fn read16(self, addr: u64) -> (BusFe310View, Result<u16, ()>) {
        match fe310_region(addr) {
            Fe310Region::Timer { .. } => (self, Err(())),
            Fe310Region::Intc { .. } => (self, Err(())),
            Fe310Region::Prci { .. } => (self, Err(())),
            Fe310Region::Gpio { .. } => (self, Err(())),
            Fe310Region::Uart0 { .. } => (self, Err(())),
            Fe310Region::Uart1 { .. } => (self, Err(())),
            Fe310Region::SpiFlash { offset } => (self, ram_read16(self.flash, offset)),
            Fe310Region::Dtim { offset } => (self, ram_read16(self.dtim, offset)),
            Fe310Region::Unmapped => (self, Err(())),
        }
    }

    /// The state after a read of 32 bits at `addr`, and the value read; an
    /// error where the address holds nothing that can be read at this width.
    /// Device registers are read as aligned words, 64 bits as two words, the
    /// low one first.
    pub open spec fn read32(self, addr: u64) -> (BusFe310View, Result<u32, ()>) {
        match fe310_region(addr) {
            Fe310Region::Timer { offset } => if offset % 4 == 0 {
                (self, Ok(self.timer.read(offset)))
            } else {
                (self, Err(()))
            },
            Fe310Region::Intc { offset } => if offset % 4 == 0 {
                (self, Ok(self.intc.read(offset)))
            } else {
                (self, Err(()))
            },
            Fe310Region::Prci { offset } => if offset % 4 == 0 {
                (self, Ok(self.prci.read(offset)))
            } else {
                (self, Err(()))
            },
            Fe310Region::Gpio { offset } => if offset % 4 == 0 {
                (self, Ok(self.gpio.read(offset)))
            } else {
                (self, Err(()))
            },
            Fe310Region::Uart0 { offset } => if offset % 4 == 0 {
                {
                    let (u, v) = self.uart0.read(offset);
                    (BusFe310View { uart0: u, ..self }, Ok(v))
                }
            } else {
                (self, Err(()))
            },
            Fe310Region::Uart1 { offset } => if offset % 4 == 0 {
                {
                    let (u, v) = self.uart1.read(offset);
                    (BusFe310View { uart1: u, ..self }, Ok(v))
                }
            } else {
                (self, Err(()))
            },
            Fe310Region::SpiFlash { offset } => (self, ram_read32(self.flash, offset)),
            Fe310Region::Dtim { offset } => (self, ram_read32(self.dtim, offset)),
            Fe310Region::Unmapped => (self, Err(())),
        }
    }

    /// The state after a read of 64 bits at `addr`, and the value read; an
    /// error where the address holds nothing that can be read at this width.
    /// Device registers are read as aligned words, 64 bits as two words, the
    /// low one first.
    pub open spec fn read64(self, addr: u64) -> (BusFe310View, Result<u64, ()>) {
        match fe310_region(addr) {
            Fe310Region::Timer { offset } => if offset % 4 == 0 {
                (
                    self,
                    Ok(
                        (self.timer.read(offset) as u64)
                            | ((self.timer.read(offset.wrapping_add(4)) as u64) << 32),
                    ),
                )
            } else {
                (self, Err(()))
            },
            Fe310Region::Intc { offset } => if offset % 4 == 0 {
                (
                    self,
                    Ok(
                        (self.intc.read(offset) as u64)
                            | ((self.intc.read(offset.wrapping_add(4)) as u64) << 32),
                    ),
                )
            } else {
                (self, Err(()))
            },
            Fe310Region::Prci { offset } => if offset % 4 == 0 {
                (
                    self,
                    Ok(
                        (self.prci.read(offset) as u64)
                            | ((self.prci.read(offset.wrapping_add(4)) as u64) << 32),
                    ),
                )
            } else {
                (self, Err(()))
            },
            Fe310Region::Gpio { offset } => if offset % 4 == 0 {
                (
                    self,
                    Ok(
                        (self.gpio.read(offset) as u64)
                            | ((self.gpio.read(offset.wrapping_add(4)) as u64) << 32),
                    ),
                )
            } else {
                (self, Err(()))
            },
            Fe310Region::Uart0 { offset } => if offset % 4 == 0 {
                {
                    let (u0, low) = self.uart0.read(offset);
                    let (u1, high) = u0.read(offset.wrapping_add(4));
                    (BusFe310View { uart0: u1, ..self }, Ok((low as u64) | ((high as u64) << 32)))
                }
            } else {
                (self, Err(()))
            },
            Fe310Region::Uart1 { offset } => if offset % 4 == 0 {
                {
                    let (u0, low) = self.uart1.read(offset);
                    let (u1, high) = u0.read(offset.wrapping_add(4));
                    (BusFe310View { uart1: u1, ..self }, Ok((low as u64) | ((high as u64) << 32)))
                }
            } else {
                (self, Err(()))
            },
            Fe310Region::SpiFlash { offset } => (self, ram_read64(self.flash, offset)),
            Fe310Region::Dtim { offset } => (self, ram_read64(self.dtim, offset)),
            Fe310Region::Unmapped => (self, Err(())),
        }
    }

    /// The state after a write of 8 bits at `addr`; unchanged, with an
    /// error, where the address holds nothing that can be written at this width.
    /// Device registers are written as aligned words, 64 bits as two words, the
    /// low one first.
    pub open spec fn write8(self, addr: u64, data: u8) -> (BusFe310View, Result<(), ()>) {
        match fe310_region(addr) {
            Fe310Region::Timer { .. } => (self, Err(())),
            Fe310Region::Intc { .. } => (self, Err(())),
            Fe310Region::Prci { .. } => (self, Err(())),
            Fe310Region::Gpio { .. } => (self, Err(())),
            Fe310Region::Uart0 { .. } => (self, Err(())),
            Fe310Region::Uart1 { .. } => (self, Err(())),
            Fe310Region::SpiFlash { offset } => {
                let (m, r) = ram_write8(self.flash, offset, data);
                (BusFe310View { flash: m, ..self }, r)
            },
            Fe310Region::Dtim { offset } => {
                let (m, r) = ram_write8(self.dtim, offset, data);
                (BusFe310View { dtim: m, ..self }, r)
            },
            Fe310Region::Unmapped => (self, Err(())),
        }
    }

    /// The state after a write of 16 bits at `addr`; unchanged, with an
    /// error, where the address holds nothing that can be written at this width.
    /// Device registers are written as aligned words, 64 bits as two words, the
    /// low one first.
    pub open spec fn write16(self, addr: u64, data: u16) -> (BusFe310View, Result<(), ()>) {
        match fe310_region(addr) {
            Fe310Region::Timer { .. } => (self, Err(())),
            Fe310Region::Intc { .. } => (self, Err(())),
            Fe310Region::Prci { .. } => (self, Err(())),
            Fe310Region::Gpio { .. } => (self, Err(())),
            Fe310Region::Uart0 { .. } => (self, Err(())),
            Fe310Region::Uart1 { .. } => (self, Err(())),
            Fe310Region::SpiFlash { offset } => {
                let (m, r) = ram_write16(self.flash, offset, data);
                (BusFe310View { flash: m, ..self }, r)
            },
            Fe310Region::Dtim { offset } => {
                let (m, r) = ram_write16(self.dtim, offset, data);
                (BusFe310View { dtim: m, ..self }, r)
            },
            Fe310Region::Unmapped => (self, Err(())),
        }
    }

    /// The state after a write of 32 bits at `addr`; unchanged, with an
    /// error, where the address holds nothing that can be written at this width.
    /// Device registers are written as aligned words, 64 bits as two words, the
    /// low one first.
    pub open spec fn write32(self, addr: u64, data: u32) -> (BusFe310View, Result<(), ()>) {
        match fe310_region(addr) {
            Fe310Region::Timer { offset } => if offset % 4 == 0 {
                (BusFe310View { timer: self.timer.written(offset, data), ..self }, Ok(()))
            } else {
                (self, Err(()))
            },
            Fe310Region::Intc { offset } => if offset % 4 == 0 {
                (BusFe310View { intc: self.intc.written(offset, data), ..self }, Ok(()))
            } else {
                (self, Err(()))
            },
            Fe310Region::Prci { offset } => if offset % 4 == 0 {
                (BusFe310View { prci: self.prci.written(offset, data), ..self }, Ok(()))
            } else {
                (self, Err(()))
            },
            Fe310Region::Gpio { offset } => if offset % 4 == 0 {
                (BusFe310View { gpio: self.gpio.written(offset, data), ..self }, Ok(()))
            } else {
                (self, Err(()))
            },
            Fe310Region::Uart0 { offset } => if offset % 4 == 0 {
                (BusFe310View { uart0: self.uart0.written(offset, data), ..self }, Ok(()))
            } else {
                (self, Err(()))
            },
            Fe310Region::Uart1 { offset } => if offset % 4 == 0 {
                (BusFe310View { uart1: self.uart1.written(offset, data), ..self }, Ok(()))
            } else {
                (self, Err(()))
            },
            Fe310Region::SpiFlash { offset } => {
                let (m, r) = ram_write32(self.flash, offset, data);
                (BusFe310View { flash: m, ..self }, r)
            },
            Fe310Region::Dtim { offset } => {
                let (m, r) = ram_write32(self.dtim, offset, data);
                (BusFe310View { dtim: m, ..self }, r)
            },
            Fe310Region::Unmapped => (self, Err(())),
        }
    }

    /// The state after a write of 64 bits at `addr`; unchanged, with an
    /// error, where the address holds nothing that can be written at this width.
    /// Device registers are written as aligned words, 64 bits as two words, the
    /// low one first.
    pub open spec fn write64(self, addr: u64, data: u64) -> (BusFe310View, Result<(), ()>) {
        match fe310_region(addr) {
            Fe310Region::Timer { offset } => if offset % 4 == 0 {
                (
                    BusFe310View {
                        timer: self.timer.written(offset, data as u32).written(
                            offset.wrapping_add(4),
                            (data >> 32) as u32,
                        ),
                        ..self
                    },
                    Ok(()),
                )
            } else {
                (self, Err(()))
            },
            Fe310Region::Intc { offset } => if offset % 4 == 0 {
                (
                    BusFe310View {
                        intc: self.intc.written(offset, data as u32).written(
                            offset.wrapping_add(4),
                            (data >> 32) as u32,
                        ),
                        ..self
                    },
                    Ok(()),
                )
            } else {
                (self, Err(()))
            },
            Fe310Region::Prci { offset } => if offset % 4 == 0 {
                (
                    BusFe310View {
                        prci: self.prci.written(offset, data as u32).written(
                            offset.wrapping_add(4),
                            (data >> 32) as u32,
                        ),
                        ..self
                    },
                    Ok(()),
                )
            } else {
                (self, Err(()))
            },
            Fe310Region::Gpio { offset } => if offset % 4 == 0 {
                (
                    BusFe310View {
                        gpio: self.gpio.written(offset, data as u32).written(
                            offset.wrapping_add(4),
                            (data >> 32) as u32,
                        ),
                        ..self
                    },
                    Ok(()),
                )
            } else {
                (self, Err(()))
            },
            Fe310Region::Uart0 { offset } => if offset % 4 == 0 {
                (
                    BusFe310View {
                        uart0: self.uart0.written(offset, data as u32).written(
                            offset.wrapping_add(4),
                            (data >> 32) as u32,
                        ),
                        ..self
                    },
                    Ok(()),
                )
            } else {
                (self, Err(()))
            },
            Fe310Region::Uart1 { offset } => if offset % 4 == 0 {
                (
                    BusFe310View {
                        uart1: self.uart1.written(offset, data as u32).written(
                            offset.wrapping_add(4),
                            (data >> 32) as u32,
                        ),
                        ..self
                    },
                    Ok(()),
                )
            } else {
                (self, Err(()))
            },
            Fe310Region::SpiFlash { offset } => {
                let (m, r) = ram_write64(self.flash, offset, data);
                (BusFe310View { flash: m, ..self }, r)
            },
            Fe310Region::Dtim { offset } => {
                let (m, r) = ram_write64(self.dtim, offset, data);
                (BusFe310View { dtim: m, ..self }, r)
            },
            Fe310Region::Unmapped => (self, Err(())),
        }
    }

    /// Whether `len` bytes of data can be installed in `device`: only the
    /// SPI flash takes data, as much as fits.
    pub open spec fn accepts(self, device: Device, len: nat) -> bool {
        device == Device::SpiFlash && len <= self.flash.len()
    }

    /// The state after `data` was installed in `device`.
    pub open spec fn with_device_data(self, device: Device, data: Seq<u8>) -> BusFe310View {
        match device {
            Device::SpiFlash => BusFe310View { flash: overlay(self.flash, data), ..self },
            _ => self,
        }
    }

    /// The address at which `device` starts, for the devices that have an address.
    pub open spec fn base_address(device: Device) -> Option<u64> {
        match device {
            Device::SpiFlash => Some(SPIFLASH_ADDRESS_START),
            Device::DTB => Some(DTB_ADDRESS_START),
            _ => None,
        }
    }

    /// The state after the devices have made their step of a tick in which
    /// the consoles answered `input0` and `input1`, before the interrupt
    /// controller arbitrates.
    pub open spec fn devices_ticked(self, input0: u8, input1: u8) -> BusFe310View {
        BusFe310View {
            clock: self.clock.wrapping_add(1),
            timer: self.timer.ticked(),
            uart0: self.uart0.after_tick(input0),
            uart1: self.uart1.after_tick(input1),
            ..self
        }
    }

    /// The interrupt sources that are pending after the devices' step: UART0
    /// first, then UART1.
    pub open spec fn pending_sources(self, input0: u8, input1: u8) -> Seq<usize> {
        let first = if self.uart0.after_tick(input0).irq() {
            seq![UART0_IRQ]
        } else {
            Seq::<usize>::empty()
        };
        if self.uart1.after_tick(input1).irq() {
            first.push(UART1_IRQ)
        } else {
            first
        }
    }

    /// The interrupt lines after a tick, one for each privilege level.
    pub open spec fn lines(self, input0: u8, input1: u8) -> Seq<bool> {
        seq![
            false,
            self.intc.supervisor_line(0, self.pending_sources(input0, input1)),
            false,
            self.intc.machine_line(0, self.pending_sources(input0, input1)),
        ]
    }

    /// Whether `next` is the state after a tick in which the consoles
    /// answered `input0` and `input1`: the devices have made their step, and
    /// the interrupt controller has arbitrated among the pending sources for
    /// hart 0.
    pub open spec fn ticked(self, input0: u8, input1: u8, next: BusFe310View) -> bool {
        &&& next == (BusFe310View { intc: next.intc, ..self.devices_ticked(input0, input1) })
        &&& self.intc.ticked(0, self.pending_sources(input0, input1), next.intc)
    }

    /// Whether `next` and `irqs` are the state and the interrupt lines after
    /// a tick, for some answers of the consoles.
    pub open spec fn stepped(self, next: BusFe310View, irqs: Seq<bool>) -> bool {
        exists|input0: u8, input1: u8| #[trigger]
            self.ticked(input0, input1, next) && irqs == self.lines(input0, input1)
    }
}

/// The SiFive FE310: CLINT, PLIC, PRCI, GPIO, two UARTs, SPI flash and data
/// memory. With external DRAM in place of the data memory it stands for
/// the FU540.
pub struct BusFe310 {
    pub clock: u64,
    pub dtim: Memory,
    pub flash: Memory,
    pub timer: Clint,
    pub intc: Plic,
    pub prci: Prci,
    pub uart0: Fe310Uart,
    pub uart1: Fe310Uart,
    pub gpio: Gpio,
}

impl View for BusFe310 {
    type V = BusFe310View;

    open spec fn view(&self) -> BusFe310View {
        BusFe310View {
            clock: self.clock,
            dtim: self.dtim@,
            flash: self.flash@,
            timer: self.timer,
            intc: self.intc@,
            prci: self.prci,
            uart0: self.uart0@,
            uart1: self.uart1@,
            gpio: self.gpio,
        }
    }
}

impl BusFe310 {
    /// The FE310 after reset, with `console` behind UART0.
    pub fn new(console: Box<dyn Console>) -> (bus: Self)
        ensures
            bus@ == BusFe310View::reset(DTIM_SIZE as nat),
    {
        Self::with_memory(console, DTIM_SIZE)
    }

    /// The chip after reset with `size` bytes of data memory, and `console`
    /// behind UART0.
    pub fn with_memory(console: Box<dyn Console>, size: usize) -> (bus: Self)
        ensures
            bus@ == BusFe310View::reset(size as nat),
    {
        Self {
            clock: 0,
            dtim: Memory::new(size),
            flash: Memory::new(FLASH_SIZE),
            timer: Clint::new(),
            intc: Plic::new(),
            uart0: Fe310Uart::new(console),
            uart1: Fe310Uart::new(Box::new(TtyDummy::new())),
            prci: Prci::new(),
            gpio: Gpio::new(),
        }
    }

    /// Whether `len` bytes of data can be installed in `device`.
    pub fn accepts_device_data(&self, device: Device, len: usize) -> (b: bool)
        ensures
            b == self@.accepts(device, len as nat),
    {
        match device {
            Device::SpiFlash => len <= self.flash.size(),
            _ => false,
        }
    }

    /// Installs `data` at the beginning of the SPI flash.
    pub fn set_device_data(&mut self, device: Device, data: Vec<u8>)
        requires
            old(self)@.accepts(device, data@.len()),
        ensures
            final(self)@ == old(self)@.with_device_data(device, data@),
    {
        self.flash.initialize(data);
    }

    /// The console behind UART0, to read from it and to write to it; the
    /// chip stays as it is.
    pub fn get_console(&mut self) -> (console: &mut Box<dyn Console>)
        ensures
            *console == old(self).uart0.console,
            final(self).uart0.console == *final(console),
            final(self)@ == old(self)@,
    {
        self.uart0.get_console()
    }

    /// Advances every device by one tick and returns the interrupt lines,
    /// one for each privilege level.
    pub fn tick(&mut self) -> (irqs: Vec<bool>)
        ensures
            old(self)@.stepped(final(self)@, irqs@),
            irqs@.len() == 4,
    {
        self.clock = self.clock.wrapping_add(1);
        self.timer.tick();
        self.prci.tick();
        self.gpio.tick();
        let ghost before0: Fe310UartView = self.uart0@;
        self.uart0.tick();
        let ghost input0: u8 = choose|input: u8| self.uart0@ == before0.after_tick(input);
        let ghost before1: Fe310UartView = self.uart1@;
        self.uart1.tick();
        let ghost input1: u8 = choose|input: u8| self.uart1@ == before1.after_tick(input);
        let mut interrupts: Vec<usize> = Vec::new();
        if self.uart0.is_irq() {
            interrupts.push(UART0_IRQ);
        }
        if self.uart1.is_irq() {
            interrupts.push(UART1_IRQ);
        }
        assert(interrupts@ =~= old(self)@.pending_sources(input0, input1));
        let irqs: Vec<bool> = self.intc.tick(0, interrupts);
        assert(old(self)@.ticked(input0, input1, self@));
        assert(irqs@ == old(self)@.lines(input0, input1));
        irqs
    }

    pub fn is_pending_software_interrupt(&mut self, core: usize) -> (pending: bool)
        ensures
            final(self)@ == old(self)@,
            pending == old(self)@.timer.software_pending(core),
    {
        self.timer.is_pending_software_interrupt(core)
    }

    pub fn is_pending_timer_interrupt(&mut self, core: usize) -> (pending: bool)
        ensures
            final(self)@ == old(self)@,
            pending == old(self)@.timer.timer_pending(core),
    {
        self.timer.is_pending_timer_interrupt(core)
    }

    /// The address at which `device` starts.
    pub fn get_base_address(&mut self, device: Device) -> (addr: u64)
        requires
            BusFe310View::base_address(device) is Some,
        ensures
            final(self)@ == old(self)@,
            Some(addr) == BusFe310View::base_address(device),
    {
        match device {
            Device::SpiFlash => SPIFLASH_ADDRESS_START,
            _ => DTB_ADDRESS_START,
        }
    }

    pub fn read8(&mut self, addr: u64) -> (r: Result<u8, ()>)
        ensures
            (final(self)@, r) == old(self)@.read8(addr),
    {
        match fe310_region(addr) {
            Fe310Region::Timer { .. } => Err(()),
            Fe310Region::Intc { .. } => Err(()),
            Fe310Region::Prci { .. } => Err(()),
            Fe310Region::Gpio { .. } => Err(()),
            Fe310Region::Uart0 { .. } => Err(()),
            Fe310Region::Uart1 { .. } => Err(()),
            Fe310Region::SpiFlash { offset } => self.flash.checked_read8(offset),
            Fe310Region::Dtim { offset } => self.dtim.checked_read8(offset),
            Fe310Region::Unmapped => Err(()),
        }
    }

    pub fn read16(&mut self, addr: u64) -> (r: Result<u16, ()>)
        ensures
            (final(self)@, r) == old(self)@.read16(addr),
    {
        match fe310_region(addr) {
            Fe310Region::Timer { .. } => Err(()),
            Fe310Region::Intc { .. } => Err(()),
            Fe310Region::Prci { .. } => Err(()),
            Fe310Region::Gpio { .. } => Err(()),
            Fe310Region::Uart0 { .. } => Err(()),
            Fe310Region::Uart1 { .. } => Err(()),
            Fe310Region::SpiFlash { offset } => self.flash.checked_read16(offset),
            Fe310Region::Dtim { offset } => self.dtim.checked_read16(offset),
            Fe310Region::Unmapped => Err(()),
        }
    }

    pub fn read32(&mut self, addr: u64) -> (r: Result<u32, ()>)
        ensures
            (final(self)@, r) == old(self)@.read32(addr),
    {
        match fe310_region(addr) {
            Fe310Region::Timer { offset } => if offset % 4 == 0 {
                Ok(self.timer.read(offset))
            } else {
                Err(())
            },
            Fe310Region::Intc { offset } => if offset % 4 == 0 {
                Ok(self.intc.read(offset))
            } else {
                Err(())
            },
            Fe310Region::Prci { offset } => if offset % 4 == 0 {
                Ok(self.prci.read(offset))
            } else {
                Err(())
            },
            Fe310Region::Gpio { offset } => if offset % 4 == 0 {
                Ok(self.gpio.read(offset))
            } else {
                Err(())
            },
            Fe310Region::Uart0 { offset } => if offset % 4 == 0 {
                Ok(self.uart0.read(offset))
            } else {
                Err(())
            },
            Fe310Region::Uart1 { offset } => if offset % 4 == 0 {
                Ok(self.uart1.read(offset))
            } else {
                Err(())
            },
            Fe310Region::SpiFlash { offset } => self.flash.checked_read32(offset),
            Fe310Region::Dtim { offset } => self.dtim.checked_read32(offset),
            Fe310Region::Unmapped => Err(()),
        }
    }

    pub fn read64(&mut self, addr: u64) -> (r: Result<u64, ()>)
        ensures
            (final(self)@, r) == old(self)@.read64(addr),
    {
        match fe310_region(addr) {
            Fe310Region::Timer { offset } => if offset % 4 == 0 {
                {
                    let low: u32 = self.timer.read(offset);
                    let high: u32 = self.timer.read(offset.wrapping_add(4));
                    Ok((low as u64) | ((high as u64) << 32))
                }
            } else {
                Err(())
            },
            Fe310Region::Intc { offset } => if offset % 4 == 0 {
                {
                    let low: u32 = self.intc.read(offset);
                    let high: u32 = self.intc.read(offset.wrapping_add(4));
                    Ok((low as u64) | ((high as u64) << 32))
                }
            } else {
                Err(())
            },
            Fe310Region::Prci { offset } => if offset % 4 == 0 {
                {
                    let low: u32 = self.prci.read(offset);
                    let high: u32 = self.prci.read(offset.wrapping_add(4));
                    Ok((low as u64) | ((high as u64) << 32))
                }
            } else {
                Err(())
            },
            Fe310Region::Gpio { offset } => if offset % 4 == 0 {
                {
                    let low: u32 = self.gpio.read(offset);
                    let high: u32 = self.gpio.read(offset.wrapping_add(4));
                    Ok((low as u64) | ((high as u64) << 32))
                }
            } else {
                Err(())
            },
            Fe310Region::Uart0 { offset } => if offset % 4 == 0 {
                {
                    let low: u32 = self.uart0.read(offset);
                    let high: u32 = self.uart0.read(offset.wrapping_add(4));
                    Ok((low as u64) | ((high as u64) << 32))
                }
            } else {
                Err(())
            },
            Fe310Region::Uart1 { offset } => if offset % 4 == 0 {
                {
                    let low: u32 = self.uart1.read(offset);
                    let high: u32 = self.uart1.read(offset.wrapping_add(4));
                    Ok((low as u64) | ((high as u64) << 32))
                }
            } else {
                Err(())
            },
            Fe310Region::SpiFlash { offset } => self.flash.checked_read64(offset),
            Fe310Region::Dtim { offset } => self.dtim.checked_read64(offset),
            Fe310Region::Unmapped => Err(()),
        }
    }

    pub fn write8(&mut self, addr: u64, data: u8) -> (r: Result<(), ()>)
        ensures
            (final(self)@, r) == old(self)@.write8(addr, data),
    {
        match fe310_region(addr) {
            Fe310Region::Timer { .. } => Err(()),
            Fe310Region::Intc { .. } => Err(()),
            Fe310Region::Prci { .. } => Err(()),
            Fe310Region::Gpio { .. } => Err(()),
            Fe310Region::Uart0 { .. } => Err(()),
            Fe310Region::Uart1 { .. } => Err(()),
            Fe310Region::SpiFlash { offset } => self.flash.checked_write8(offset, data),
            Fe310Region::Dtim { offset } => self.dtim.checked_write8(offset, data),
            Fe310Region::Unmapped => Err(()),
        }
    }

    pub fn write16(&mut self, addr: u64, data: u16) -> (r: Result<(), ()>)
        ensures
            (final(self)@, r) == old(self)@.write16(addr, data),
    {
        match fe310_region(addr) {
            Fe310Region::Timer { .. } => Err(()),
            Fe310Region::Intc { .. } => Err(()),
            Fe310Region::Prci { .. } => Err(()),
            Fe310Region::Gpio { .. } => Err(()),
            Fe310Region::Uart0 { .. } => Err(()),
            Fe310Region::Uart1 { .. } => Err(()),
            Fe310Region::SpiFlash { offset } => self.flash.checked_write16(offset, data),
            Fe310Region::Dtim { offset } => self.dtim.checked_write16(offset, data),
            Fe310Region::Unmapped => Err(()),
        }
    }

    pub fn write32(&mut self, addr: u64, data: u32) -> (r: Result<(), ()>)
        ensures
            (final(self)@, r) == old(self)@.write32(addr, data),
    {
        match fe310_region(addr) {
            Fe310Region::Timer { offset } => if offset % 4 == 0 {
                {
                    self.timer.write(offset, data);
                    Ok(())
                }
            } else {
                Err(())
            },
            Fe310Region::Intc { offset } => if offset % 4 == 0 {
                {
                    self.intc.write(offset, data);
                    Ok(())
                }
            } else {
                Err(())
            },
            Fe310Region::Prci { offset } => if offset % 4 == 0 {
                {
                    self.prci.write(offset, data);
                    Ok(())
                }
            } else {
                Err(())
            },
            Fe310Region::Gpio { offset } => if offset % 4 == 0 {
                {
                    self.gpio.write(offset, data);
                    Ok(())
                }
            } else {
                Err(())
            },
            Fe310Region::Uart0 { offset } => if offset % 4 == 0 {
                {
                    self.uart0.write(offset, data);
                    Ok(())
                }
            } else {
                Err(())
            },
            Fe310Region::Uart1 { offset } => if offset % 4 == 0 {
                {
                    self.uart1.write(offset, data);
                    Ok(())
                }
            } else {
                Err(())
            },
            Fe310Region::SpiFlash { offset } => self.flash.checked_write32(offset, data),
            Fe310Region::Dtim { offset } => self.dtim.checked_write32(offset, data),
            Fe310Region::Unmapped => Err(()),
        }
    }

    pub fn write64(&mut self, addr: u64, data: u64) -> (r: Result<(), ()>)
        ensures
            (final(self)@, r) == old(self)@.write64(addr, data),
    {
        match fe310_region(addr) {
            Fe310Region::Timer { offset } => if offset % 4 == 0 {
                {
                    self.timer.write(offset, data as u32);
                    self.timer.write(offset.wrapping_add(4), (data >> 32) as u32);
                    Ok(())
                }
            } else {
                Err(())
            },
            Fe310Region::Intc { offset } => if offset % 4 == 0 {
                {
                    self.intc.write(offset, data as u32);
                    self.intc.write(offset.wrapping_add(4), (data >> 32) as u32);
                    Ok(())
                }
            } else {
                Err(())
            },
            Fe310Region::Prci { offset } => if offset % 4 == 0 {
                {
                    self.prci.write(offset, data as u32);
                    self.prci.write(offset.wrapping_add(4), (data >> 32) as u32);
                    Ok(())
                }
            } else {
                Err(())
            },
            Fe310Region::Gpio { offset } => if offset % 4 == 0 {
                {
                    self.gpio.write(offset, data as u32);
                    self.gpio.write(offset.wrapping_add(4), (data >> 32) as u32);
                    Ok(())
                }
            } else {
                Err(())
            },
            Fe310Region::Uart0 { offset } => if offset % 4 == 0 {
                {
                    self.uart0.write(offset, data as u32);
                    self.uart0.write(offset.wrapping_add(4), (data >> 32) as u32);
                    Ok(())
                }
            } else {
                Err(())
            },
            Fe310Region::Uart1 { offset } => if offset % 4 == 0 {
                {
                    self.uart1.write(offset, data as u32);
                    self.uart1.write(offset.wrapping_add(4), (data >> 32) as u32);
                    Ok(())
                }
            } else {
                Err(())
            },
            Fe310Region::SpiFlash { offset } => self.flash.checked_write64(offset, data),
            Fe310Region::Dtim { offset } => self.dtim.checked_write64(offset, data),
            Fe310Region::Unmapped => Err(()),
        }
    }

}

} // verus!
