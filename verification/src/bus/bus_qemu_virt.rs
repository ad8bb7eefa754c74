// The `virt` board of QEMU.
use vstd::prelude::*;

use crate::bus::bus::Device;
use crate::console::Console;
use crate::peripherals::fu540_c000::clint::Clint;
use crate::peripherals::fu540_c000::plic::{Plic, PlicView};
use crate::peripherals::memory::{
    overlay, ram_read16, ram_read32, ram_read64, ram_read8, ram_write16, ram_write32,
    ram_write64, ram_write8, zeros, Memory,
};
use crate::peripherals::uart::{Uart, UartState};
use crate::peripherals::virtio::{Virtio, VirtioView};

verus! {

pub const DTB_ADDRESS_START: u64 = 0x0000_1020;
pub const DTB_ADDRESS_END: u64 = 0x0000_1FFF;

pub const MROM_ADDRESS_START: u64 = 0x0000_1000;
pub const MROM_ADDRESS_END: u64 = 0x0000_FFFF;

pub const TIMER_ADDRESS_START: u64 = 0x0200_0000;
pub const TIMER_ADDRESS_END: u64 = 0x0200_FFFF;

pub const INTC_ADDRESS_START: u64 = 0x0C00_0000;
pub const INTC_ADDRESS_END: u64 = 0x0FFF_FFFF;

pub const UART_ADDRESS_START: u64 = 0x1000_0000;
pub const UART_ADDRESS_END: u64 = 0x1000_0FFF;

pub const VIRTIO_ADDRESS_START: u64 = 0x1000_1000;
pub const VIRTIO_ADDRESS_END: u64 = 0x1000_1FFF;

pub const DRAM_ADDRESS_START: u64 = 0x8000_0000;

pub const MROM_SIZE: usize = 0xF000;
pub const DRAM_SIZE: usize = 0x1000_0000;
pub const DTB_SIZE: usize = 0xfe0;

/// The interrupt source number of the UART.
pub const UART_IRQ: usize = 10;

/// The interrupt source number of the virtio device.
pub const VIRTIO_IRQ: usize = 1;

/// The device that an address belongs to, with the offset into the device.
#[derive(Clone, Copy, Debug, PartialEq, Eq, Structural)]
pub enum QemuRegion {
    Dram { offset: u64 },
    Dtb { offset: u64 },
    Mrom { offset: u64 },
    Timer { offset: u64 },
    Intc { offset: u64 },
    Uart { offset: u64 },
    Virtio { offset: u64 },
    Unmapped,
}

/// The address map. DRAM takes every address from its start on; the device
/// tree lies over the beginning of the mask ROM.
pub open spec fn spec_qemu_region(addr: u64) -> QemuRegion {
    if DRAM_ADDRESS_START <= addr {
        QemuRegion::Dram { offset: (addr - DRAM_ADDRESS_START) as u64 }
    } else if DTB_ADDRESS_START <= addr && addr <= DTB_ADDRESS_END {
        QemuRegion::Dtb { offset: (addr - DTB_ADDRESS_START) as u64 }
    } else if MROM_ADDRESS_START <= addr && addr <= MROM_ADDRESS_END {
        QemuRegion::Mrom { offset: (addr - MROM_ADDRESS_START) as u64 }
    } else if TIMER_ADDRESS_START <= addr && addr <= TIMER_ADDRESS_END {
        QemuRegion::Timer { offset: (addr - TIMER_ADDRESS_START) as u64 }
    } else if INTC_ADDRESS_START <= addr && addr <= INTC_ADDRESS_END {
        QemuRegion::Intc { offset: (addr - INTC_ADDRESS_START) as u64 }
    } else if UART_ADDRESS_START <= addr && addr <= UART_ADDRESS_END {
        QemuRegion::Uart { offset: (addr - UART_ADDRESS_START) as u64 }
    } else if VIRTIO_ADDRESS_START <= addr && addr <= VIRTIO_ADDRESS_END {
        QemuRegion::Virtio { offset: (addr - VIRTIO_ADDRESS_START) as u64 }
    } else {
        QemuRegion::Unmapped
    }
}

#[verifier::when_used_as_spec(spec_qemu_region)]
pub fn qemu_region(addr: u64) -> (r: QemuRegion)
    ensures
        r == spec_qemu_region(addr),
{
    if DRAM_ADDRESS_START <= addr {
        QemuRegion::Dram { offset: (addr - DRAM_ADDRESS_START) as u64 }
    } else if DTB_ADDRESS_START <= addr && addr <= DTB_ADDRESS_END {
        QemuRegion::Dtb { offset: (addr - DTB_ADDRESS_START) as u64 }
    } else if MROM_ADDRESS_START <= addr && addr <= MROM_ADDRESS_END {
        QemuRegion::Mrom { offset: (addr - MROM_ADDRESS_START) as u64 }
    } else if TIMER_ADDRESS_START <= addr && addr <= TIMER_ADDRESS_END {
        QemuRegion::Timer { offset: (addr - TIMER_ADDRESS_START) as u64 }
    } else if INTC_ADDRESS_START <= addr && addr <= INTC_ADDRESS_END {
        QemuRegion::Intc { offset: (addr - INTC_ADDRESS_START) as u64 }
    } else if UART_ADDRESS_START <= addr && addr <= UART_ADDRESS_END {
        QemuRegion::Uart { offset: (addr - UART_ADDRESS_START) as u64 }
    } else if VIRTIO_ADDRESS_START <= addr && addr <= VIRTIO_ADDRESS_END {
        QemuRegion::Virtio { offset: (addr - VIRTIO_ADDRESS_START) as u64 }
    } else {
        QemuRegion::Unmapped
    }
}

/// The state of the board: its memories and the state of its devices.
pub struct BusQemuVirtView {
    pub clock: u64,
    pub dtb: Seq<u8>,
    pub mrom: Seq<u8>,
    pub dram: Seq<u8>,
    pub timer: Clint,
    pub intc: PlicView,
    pub uart: UartState,
    pub virtio: VirtioView,
}

impl BusQemuVirtView {
    /// The board after reset: the memories zero, the devices reset.
    pub open spec fn reset() -> BusQemuVirtView {
        BusQemuVirtView {
            clock: 0,
            dtb: zeros(DTB_SIZE as nat),
            mrom: zeros(MROM_SIZE as nat),
            dram: zeros(DRAM_SIZE as nat),
            timer: Clint::new(),
            intc: PlicView::reset(),
            uart: UartState::reset(),
            virtio: VirtioView::reset(DRAM_ADDRESS_START),
        }
    }

    /// The state after a read of 8 bits at `addr`, and the value read; an
    /// error where the address holds nothing that can be read at this width.
    /// Device registers are read as aligned words, 64 bits as two words, the
    /// low one first.
    pub open spec fn read8(self, addr: u64) -> (BusQemuVirtView, Result<u8, ()>) {
        match qemu_region(addr) {
            QemuRegion::Dram { offset } => (self, ram_read8(self.dram, offset)),
            QemuRegion::Dtb { offset } => (self, ram_read8(self.dtb, offset)),
            QemuRegion::Mrom { offset } => (self, ram_read8(self.mrom, offset)),
            QemuRegion::Timer { .. } => (self, Err(())),
            QemuRegion::Intc { .. } => (self, Err(())),
            QemuRegion::Uart { offset } => {
                let (u, v) = self.uart.read(offset);
                (BusQemuVirtView { uart: u, ..self }, Ok(v))
            },
            QemuRegion::Virtio { offset } => (
                self,
                Ok(
                    ((self.virtio.read((offset - offset % 4) as u64) >> ((8 * (offset % 4)) as u32))
                        & 0xff) as u8,
                ),
            ),
            QemuRegion::Unmapped => (self, Err(())),
        }
    }

    /// The state after a read of 16 bits at `addr`, and the value read; an
    /// error where the address holds nothing that can be read at this width.
    /// Device registers are read as aligned words, 64 bits as two words, the
    /// low one first.
    pub open spec fn read16(self, addr: u64) -> (BusQemuVirtView, Result<u16, ()>) {
        match qemu_region(addr) {
            QemuRegion::Dram { offset } => (self, ram_read16(self.dram, offset)),
            QemuRegion::Dtb { offset } => (self, ram_read16(self.dtb, offset)),
            QemuRegion::Mrom { offset } => (self, ram_read16(self.mrom, offset)),
            QemuRegion::Timer { .. } => (self, Err(())),
            QemuRegion::Intc { .. } => (self, Err(())),
            QemuRegion::Uart { offset } => {
                let (u0, b0) = self.uart.read(offset);
                let (u1, b1) = u0.read(offset.wrapping_add(1));
                (
                    BusQemuVirtView { uart: u1, ..self },
                    Ok(
                        (b0 as u16)
                        | ((b1 as u16) << 8),
                    ),
                )
            },
            QemuRegion::Virtio { .. } => (self, Err(())),
            QemuRegion::Unmapped => (self, Err(())),
        }
    }

    /// The state after a read of 32 bits at `addr`, and the value read; an
    /// error where the address holds nothing that can be read at this width.
    /// Device registers are read as aligned words, 64 bits as two words, the
    /// low one first.
    pub open spec fn read32(self, addr: u64) -> (BusQemuVirtView, Result<u32, ()>) {
        match qemu_region(addr) {
            QemuRegion::Dram { offset } => (self, ram_read32(self.dram, offset)),
            QemuRegion::Dtb { offset } => (self, ram_read32(self.dtb, offset)),
            QemuRegion::Mrom { offset } => (self, ram_read32(self.mrom, offset)),
            QemuRegion::Timer { offset } => if offset % 4 == 0 {
                (self, Ok(self.timer.read(offset)))
            } else {
                (self, Err(()))
            },
            QemuRegion::Intc { offset } => if offset % 4 == 0 {
                (self, Ok(self.intc.read(offset)))
            } else {
                (self, Err(()))
            },
            QemuRegion::Uart { offset } => {
                let (u0, b0) = self.uart.read(offset);
                let (u1, b1) = u0.read(offset.wrapping_add(1));
                let (u2, b2) = u1.read(offset.wrapping_add(2));
                let (u3, b3) = u2.read(offset.wrapping_add(3));
                (
                    BusQemuVirtView { uart: u3, ..self },
                    Ok(
                        (b0 as u32)
                        | ((b1 as u32) << 8)
                        | ((b2 as u32) << 16)
                        | ((b3 as u32) << 24),
                    ),
                )
            },
            QemuRegion::Virtio { offset } => if offset % 4 == 0 {
                (self, Ok(self.virtio.read(offset)))
            } else {
                (self, Err(()))
            },
            QemuRegion::Unmapped => (self, Err(())),
        }
    }

    /// The state after a read of 64 bits at `addr`, and the value read; an
    /// error where the address holds nothing that can be read at this width.
    /// Device registers are read as aligned words, 64 bits as two words, the
    /// low one first.
    pub open spec fn read64(self, addr: u64) -> (BusQemuVirtView, Result<u64, ()>) {
        match qemu_region(addr) {
            QemuRegion::Dram { offset } => (self, ram_read64(self.dram, offset)),
            QemuRegion::Dtb { offset } => (self, ram_read64(self.dtb, offset)),
            QemuRegion::Mrom { offset } => (self, ram_read64(self.mrom, offset)),
            QemuRegion::Timer { offset } => if offset % 4 == 0 {
                (
                    self,
                    Ok(
                        (self.timer.read(offset) as u64)
                            | ((self.timer.read(offset.wrapping_add(4)) as u64) << 32),
                    ),
                )
            } else {
                (self, Err(()))
            },
            QemuRegion::Intc { offset } => if offset % 4 == 0 {
                (
                    self,
                    Ok(
                        (self.intc.read(offset) as u64)
                            | ((self.intc.read(offset.wrapping_add(4)) as u64) << 32),
                    ),
                )
            } else {
                (self, Err(()))
            },
            QemuRegion::Uart { offset } => {
                let (u0, b0) = self.uart.read(offset);
                let (u1, b1) = u0.read(offset.wrapping_add(1));
                let (u2, b2) = u1.read(offset.wrapping_add(2));
                let (u3, b3) = u2.read(offset.wrapping_add(3));
                let (u4, b4) = u3.read(offset.wrapping_add(4));
                let (u5, b5) = u4.read(offset.wrapping_add(5));
                let (u6, b6) = u5.read(offset.wrapping_add(6));
                let (u7, b7) = u6.read(offset.wrapping_add(7));
                (
                    BusQemuVirtView { uart: u7, ..self },
                    Ok(
                        (b0 as u64)
                        | ((b1 as u64) << 8)
                        | ((b2 as u64) << 16)
                        | ((b3 as u64) << 24)
                        | ((b4 as u64) << 32)
                        | ((b5 as u64) << 40)
                        | ((b6 as u64) << 48)
                        | ((b7 as u64) << 56),
                    ),
                )
            },
            QemuRegion::Virtio { offset } => if offset % 4 == 0 {
                (
                    self,
                    Ok(
                        (self.virtio.read(offset) as u64)
                            | ((self.virtio.read(offset.wrapping_add(4)) as u64) << 32),
                    ),
                )
            } else {
                (self, Err(()))
            },
            QemuRegion::Unmapped => (self, Err(())),
        }
    }

    /// The state after a write of 8 bits at `addr`; unchanged, with an
    /// error, where the address holds nothing that can be written at this width.
    /// Device registers are written as aligned words, 64 bits as two words, the
    /// low one first.
    pub open spec fn write8(self, addr: u64, data: u8) -> (BusQemuVirtView, Result<(), ()>) {
        match qemu_region(addr) {
            QemuRegion::Dram { offset } => {
                let (m, r) = ram_write8(self.dram, offset, data);
                (BusQemuVirtView { dram: m, ..self }, r)
            },
            QemuRegion::Dtb { .. } => (self, Err(())),
            QemuRegion::Mrom { .. } => (self, Err(())),
            QemuRegion::Timer { .. } => (self, Err(())),
            QemuRegion::Intc { .. } => (self, Err(())),
            QemuRegion::Uart { offset } => (
                BusQemuVirtView { uart: self.uart.write(offset, data), ..self },
                Ok(()),
            ),
            QemuRegion::Virtio { .. } => (self, Err(())),
            QemuRegion::Unmapped => (self, Err(())),
        }
    }

    /// The state after a write of 16 bits at `addr`; unchanged, with an
    /// error, where the address holds nothing that can be written at this width.
    /// Device registers are written as aligned words, 64 bits as two words, the
    /// low one first.
    pub open spec fn write16(self, addr: u64, data: u16) -> (BusQemuVirtView, Result<(), ()>) {
        match qemu_region(addr) {
            QemuRegion::Dram { offset } => {
                let (m, r) = ram_write16(self.dram, offset, data);
                (BusQemuVirtView { dram: m, ..self }, r)
            },
            QemuRegion::Dtb { .. } => (self, Err(())),
            QemuRegion::Mrom { .. } => (self, Err(())),
            QemuRegion::Timer { .. } => (self, Err(())),
            QemuRegion::Intc { .. } => (self, Err(())),
            QemuRegion::Uart { offset } => (
                BusQemuVirtView {
                    uart: self.uart.write(offset, (data & 0xff) as u8)
                        .write(offset.wrapping_add(1), ((data >> 8) & 0xff) as u8),
                    ..self
                },
                Ok(()),
            ),
            QemuRegion::Virtio { .. } => (self, Err(())),
            QemuRegion::Unmapped => (self, Err(())),
        }
    }

    /// The state after a write of 32 bits at `addr`; unchanged, with an
    /// error, where the address holds nothing that can be written at this width.
    /// Device registers are written as aligned words, 64 bits as two words, the
    /// low one first.
    pub open spec fn write32(self, addr: u64, data: u32) -> (BusQemuVirtView, Result<(), ()>) {
        match qemu_region(addr) {
            QemuRegion::Dram { offset } => {
                let (m, r) = ram_write32(self.dram, offset, data);
                (BusQemuVirtView { dram: m, ..self }, r)
            },
            QemuRegion::Dtb { .. } => (self, Err(())),
            QemuRegion::Mrom { .. } => (self, Err(())),
            QemuRegion::Timer { offset } => if offset % 4 == 0 {
                (BusQemuVirtView { timer: self.timer.written(offset, data), ..self }, Ok(()))
            } else {
                (self, Err(()))
            },
            QemuRegion::Intc { offset } => if offset % 4 == 0 {
                (BusQemuVirtView { intc: self.intc.written(offset, data), ..self }, Ok(()))
            } else {
                (self, Err(()))
            },
            QemuRegion::Uart { offset } => (
                BusQemuVirtView {
                    uart: self.uart.write(offset, (data & 0xff) as u8)
                        .write(offset.wrapping_add(1), ((data >> 8) & 0xff) as u8)
                        .write(offset.wrapping_add(2), ((data >> 16) & 0xff) as u8)
                        .write(offset.wrapping_add(3), ((data >> 24) & 0xff) as u8),
                    ..self
                },
                Ok(()),
            ),
            QemuRegion::Virtio { offset } => if offset % 4 == 0 {
                (BusQemuVirtView { virtio: self.virtio.written(offset, data), ..self }, Ok(()))
            } else {
                (self, Err(()))
            },
            QemuRegion::Unmapped => (self, Err(())),
        }
    }

    /// The state after a write of 64 bits at `addr`; unchanged, with an
    /// error, where the address holds nothing that can be written at this width.
    /// Device registers are written as aligned words, 64 bits as two words, the
    /// low one first.
    pub open spec fn write64(self, addr: u64, data: u64) -> (BusQemuVirtView, Result<(), ()>) {
        match qemu_region(addr) {
            QemuRegion::Dram { offset } => {
                let (m, r) = ram_write64(self.dram, offset, data);
                (BusQemuVirtView { dram: m, ..self }, r)
            },
            QemuRegion::Dtb { .. } => (self, Err(())),
            QemuRegion::Mrom { .. } => (self, Err(())),
            QemuRegion::Timer { offset } => if offset % 4 == 0 {
                (
                    BusQemuVirtView {
                        timer: self.timer.written(offset, data as u32).written(
                            offset.wrapping_add(4),
                            (data >> 32) as u32,
                        ),
                        ..self
                    },
                    Ok(()),
                )
            } else {
                (self, Err(()))
            },
            QemuRegion::Intc { offset } => if offset % 4 == 0 {
                (
                    BusQemuVirtView {
                        intc: self.intc.written(offset, data as u32).written(
                            offset.wrapping_add(4),
                            (data >> 32) as u32,
                        ),
                        ..self
                    },
                    Ok(()),
                )
            } else {
                (self, Err(()))
            },
            QemuRegion::Uart { offset } => (
                BusQemuVirtView {
                    uart: self.uart.write(offset, (data & 0xff) as u8)
                        .write(offset.wrapping_add(1), ((data >> 8) & 0xff) as u8)
                        .write(offset.wrapping_add(2), ((data >> 16) & 0xff) as u8)
                        .write(offset.wrapping_add(3), ((data >> 24) & 0xff) as u8)
                        .write(offset.wrapping_add(4), ((data >> 32) & 0xff) as u8)
                        .write(offset.wrapping_add(5), ((data >> 40) & 0xff) as u8)
                        .write(offset.wrapping_add(6), ((data >> 48) & 0xff) as u8)
                        .write(offset.wrapping_add(7), ((data >> 56) & 0xff) as u8),
                    ..self
                },
                Ok(()),
            ),
            QemuRegion::Virtio { offset } => if offset % 4 == 0 {
                (
                    BusQemuVirtView {
                        virtio: self.virtio.written(offset, data as u32).written(
                            offset.wrapping_add(4),
                            (data >> 32) as u32,
                        ),
                        ..self
                    },
                    Ok(()),
                )
            } else {
                (self, Err(()))
            },
            QemuRegion::Unmapped => (self, Err(())),
        }
    }

    /// Whether `len` bytes of data can be installed in `device`: DRAM and
    /// the device tree take what fits, the disk takes anything, and the
    /// board has no SPI flash.
    pub open spec fn accepts(self, device: Device, len: nat) -> bool {
        match device {
            Device::Dram => len <= self.dram.len(),
            Device::Disk => true,
            Device::DTB => len <= self.dtb.len(),
            Device::SpiFlash => false,
        }
    }

    /// The state after `data` was installed in `device`.
    pub open spec fn with_device_data(self, device: Device, data: Seq<u8>) -> BusQemuVirtView {
        match device {
            Device::Dram => BusQemuVirtView { dram: overlay(self.dram, data), ..self },
            Device::Disk => BusQemuVirtView {
                virtio: VirtioView { disk: data, ..self.virtio },
                ..self
            },
            Device::DTB => BusQemuVirtView { dtb: overlay(self.dtb, data), ..self },
            Device::SpiFlash => self,
        }
    }

    /// The address at which `device` starts, for the devices that have an address.
    pub open spec fn base_address(device: Device) -> Option<u64> {
        match device {
            Device::Dram => Some(DRAM_ADDRESS_START),
            Device::DTB => Some(DTB_ADDRESS_START),
            _ => None,
        }
    }

    /// The state after the devices have made their step of a tick in which
    /// the console answered `input`, before the interrupt controller
    /// arbitrates: the virtio device has served a request that was due, the
    /// timer has advanced, and the UART has moved its characters and named
    /// its interrupt.
    pub open spec fn devices_ticked(self, input: u8) -> BusQemuVirtView {
        BusQemuVirtView {
            clock: self.clock.wrapping_add(1),
            dram: self.virtio.memory_after_tick(self.dram),
            virtio: self.virtio.after_tick(self.dram),
            timer: self.timer.ticked(),
            uart: self.uart.after_tick(input).irq_check().0,
            ..self
        }
    }

    /// The interrupt sources that are pending after the devices' step: the
    /// UART first, then the virtio device.
    pub open spec fn pending_sources(self, input: u8) -> Seq<usize> {
        let uart = if self.uart.after_tick(input).irq_check().1 {
            seq![UART_IRQ]
        } else {
            Seq::<usize>::empty()
        };
        if self.virtio.after_tick(self.dram).irq() {
            uart.push(VIRTIO_IRQ)
        } else {
            uart
        }
    }

    /// The interrupt lines after a tick, one for each privilege level.
    pub open spec fn lines(self, input: u8) -> Seq<bool> {
        seq![
            false,
            self.intc.supervisor_line(0, self.pending_sources(input)),
            false,
            self.intc.machine_line(0, self.pending_sources(input)),
        ]
    }

    /// Whether `next` is the state after a tick in which the console
    /// answered `input`: the devices have made their step, and the interrupt
    /// controller has arbitrated among the pending sources for hart 0.
    pub open spec fn ticked(self, input: u8, next: BusQemuVirtView) -> bool {
        &&& next == (BusQemuVirtView { intc: next.intc, ..self.devices_ticked(input) })
        &&& self.intc.ticked(0, self.pending_sources(input), next.intc)
    }

    /// Whether `next` and `irqs` are the state and the interrupt lines after
    /// a tick, for some answer of the console.
    pub open spec fn stepped(self, next: BusQemuVirtView, irqs: Seq<bool>) -> bool {
        exists|input: u8| #[trigger] self.ticked(input, next) && irqs == self.lines(input)
    }
}

/// The `virt` board of QEMU: mask ROM with the device tree laid over it,
/// CLINT, PLIC, a 16550a UART, a virtio block device and DRAM.
pub struct BusQemuVirt {
    pub clock: u64,
    pub dtb: Memory,
    pub mrom: Memory,
    pub dram: Memory,
    pub timer: Clint,
    pub intc: Plic,
    pub uart: Uart,
    pub virtio: Virtio,
}

impl View for BusQemuVirt {
    type V = BusQemuVirtView;

    open spec fn view(&self) -> BusQemuVirtView {
        BusQemuVirtView {
            clock: self.clock,
            dtb: self.dtb@,
            mrom: self.mrom@,
            dram: self.dram@,
            timer: self.timer,
            intc: self.intc@,
            uart: self.uart@,
            virtio: self.virtio@,
        }
    }
}

impl BusQemuVirt {
    /// The board after reset, with `console` behind its UART.
    pub fn new(console: Box<dyn Console>) -> (bus: Self)
        ensures
            bus@ == BusQemuVirtView::reset(),
    {
        Self {
            clock: 0,
            dtb: Memory::new(DTB_SIZE),
            mrom: Memory::new(MROM_SIZE),
            dram: Memory::new(DRAM_SIZE),
            timer: Clint::new(),
            intc: Plic::new(),
            uart: Uart::new(console),
            virtio: Virtio::new(DRAM_ADDRESS_START),
        }
    }

    /// Whether `len` bytes of data can be installed in `device`.
    pub fn accepts_device_data(&self, device: Device, len: usize) -> (b: bool)
        ensures
            b == self@.accepts(device, len as nat),
    {
        match device {
            Device::Dram => len <= self.dram.size(),
            Device::Disk => true,
            Device::DTB => len <= self.dtb.size(),
            Device::SpiFlash => false,
        }
    }

    /// Installs `data` in `device`: at the beginning of DRAM or of the
    /// device tree, or as the disk image.
    pub fn set_device_data(&mut self, device: Device, data: Vec<u8>)
        requires
            old(self)@.accepts(device, data@.len()),
        ensures
            final(self)@ == old(self)@.with_device_data(device, data@),
    {
        match device {
            Device::Dram => {
                self.dram.initialize(data);
            },
            Device::Disk => {
                self.virtio.init(data);
            },
            Device::DTB => {
                self.dtb.initialize(data);
            },
            Device::SpiFlash => {},
        }
    }

    /// The console behind the UART, to read from it and to write to it; the
    /// board stays as it is.
    pub fn get_console(&mut self) -> (console: &mut Box<dyn Console>)
        ensures
            *console == old(self).uart.console,
            final(self).uart.console == *final(console),
            final(self)@ == old(self)@,
    {
        self.uart.get_console()
    }

    /// Advances every device by one tick and returns the interrupt lines,
    /// one for each privilege level.
    pub fn tick(&mut self) -> (irqs: Vec<bool>)
        ensures
            old(self)@.stepped(final(self)@, irqs@),
            irqs@.len() == 4,
    {
        self.clock = self.clock.wrapping_add(1);
        self.virtio.tick(&mut self.dram);
        self.timer.tick();
        let ghost before: UartState = self.uart@;
        self.uart.tick();
        let ghost input: u8 = choose|input: u8| self.uart@ == before.after_tick(input);
        let mut interrupts: Vec<usize> = Vec::new();
        if self.uart.is_irq() {
            interrupts.push(UART_IRQ);
        }
        if self.virtio.is_irq() {
            interrupts.push(VIRTIO_IRQ);
        }
        assert(interrupts@ =~= old(self)@.pending_sources(input));
        let irqs: Vec<bool> = self.intc.tick(0, interrupts);
        assert(old(self)@.ticked(input, self@));
        assert(irqs@ == old(self)@.lines(input));
        irqs
    }

    pub fn is_pending_software_interrupt(&mut self, core: usize) -> (pending: bool)
        ensures
            final(self)@ == old(self)@,
            pending == old(self)@.timer.software_pending(core),
    {
        self.timer.is_pending_software_interrupt(core)
    }

    pub fn is_pending_timer_interrupt(&mut self, core: usize) -> (pending: bool)
        ensures
            final(self)@ == old(self)@,
            pending == old(self)@.timer.timer_pending(core),
    {
        self.timer.is_pending_timer_interrupt(core)
    }

    /// The address at which `device` starts.
    pub fn get_base_address(&mut self, device: Device) -> (addr: u64)
        requires
            BusQemuVirtView::base_address(device) is Some,
        ensures
            final(self)@ == old(self)@,
            Some(addr) == BusQemuVirtView::base_address(device),
    {
        match device {
            Device::Dram => DRAM_ADDRESS_START,
            _ => DTB_ADDRESS_START,
        }
    }

    pub fn read8(&mut self, addr: u64) -> (r: Result<u8, ()>)
        ensures
            (final(self)@, r) == old(self)@.read8(addr),
    {
        match qemu_region(addr) {
            QemuRegion::Dram { offset } => self.dram.checked_read8(offset),
            QemuRegion::Dtb { offset } => self.dtb.checked_read8(offset),
            QemuRegion::Mrom { offset } => self.mrom.checked_read8(offset),
            QemuRegion::Timer { .. } => Err(()),
            QemuRegion::Intc { .. } => Err(()),
            QemuRegion::Uart { offset } => Ok(self.uart.read(offset)),
            QemuRegion::Virtio { offset } => {
                let lane: u64 = offset % 4;
                let word: u32 = self.virtio.read(offset - lane);
                Ok(((word >> ((8 * lane) as u32)) & 0xff) as u8)
            },
            QemuRegion::Unmapped => Err(()),
        }
    }

    pub fn read16(&mut self, addr: u64) -> (r: Result<u16, ()>)
        ensures
            (final(self)@, r) == old(self)@.read16(addr),
    {
        match qemu_region(addr) {
            QemuRegion::Dram { offset } => self.dram.checked_read16(offset),
            QemuRegion::Dtb { offset } => self.dtb.checked_read16(offset),
            QemuRegion::Mrom { offset } => self.mrom.checked_read16(offset),
            QemuRegion::Timer { .. } => Err(()),
            QemuRegion::Intc { .. } => Err(()),
            QemuRegion::Uart { offset } => {
                let b0: u8 = self.uart.read(offset);
                let b1: u8 = self.uart.read(offset.wrapping_add(1));
                Ok(
                    (b0 as u16)
                    | ((b1 as u16) << 8),
                )
            },
            QemuRegion::Virtio { .. } => Err(()),
            QemuRegion::Unmapped => Err(()),
        }
    }

    pub fn read32(&mut self, addr: u64) -> (r: Result<u32, ()>)
        ensures
            (final(self)@, r) == old(self)@.read32(addr),
    {
        match qemu_region(addr) {
            QemuRegion::Dram { offset } => self.dram.checked_read32(offset),
            QemuRegion::Dtb { offset } => self.dtb.checked_read32(offset),
            QemuRegion::Mrom { offset } => self.mrom.checked_read32(offset),
            QemuRegion::Timer { offset } => if offset % 4 == 0 {
                Ok(self.timer.read(offset))
            } else {
                Err(())
            },
            QemuRegion::Intc { offset } => if offset % 4 == 0 {
                Ok(self.intc.read(offset))
            } else {
                Err(())
            },
            QemuRegion::Uart { offset } => {
                let b0: u8 = self.uart.read(offset);
                let b1: u8 = self.uart.read(offset.wrapping_add(1));
                let b2: u8 = self.uart.read(offset.wrapping_add(2));
                let b3: u8 = self.uart.read(offset.wrapping_add(3));
                Ok(
                    (b0 as u32)
                    | ((b1 as u32) << 8)
                    | ((b2 as u32) << 16)
                    | ((b3 as u32) << 24),
                )
            },
            QemuRegion::Virtio { offset } => if offset % 4 == 0 {
                Ok(self.virtio.read(offset))
            } else {
                Err(())
            },
            QemuRegion::Unmapped => Err(()),
        }
    }

    pub fn read64(&mut self, addr: u64) -> (r: Result<u64, ()>)
        ensures
            (final(self)@, r) == old(self)@.read64(addr),
    {
        match qemu_region(addr) {
            QemuRegion::Dram { offset } => self.dram.checked_read64(offset),
            QemuRegion::Dtb { offset } => self.dtb.checked_read64(offset),
            QemuRegion::Mrom { offset } => self.mrom.checked_read64(offset),
            QemuRegion::Timer { offset } => if offset % 4 == 0 {
                {
                    let low: u32 = self.timer.read(offset);
                    let high: u32 = self.timer.read(offset.wrapping_add(4));
                    Ok((low as u64) | ((high as u64) << 32))
                }
            } else {
                Err(())
            },
            QemuRegion::Intc { offset } => if offset % 4 == 0 {
                {
                    let low: u32 = self.intc.read(offset);
                    let high: u32 = self.intc.read(offset.wrapping_add(4));
                    Ok((low as u64) | ((high as u64) << 32))
                }
            } else {
                Err(())
            },
            QemuRegion::Uart { offset } => {
                let b0: u8 = self.uart.read(offset);
                let b1: u8 = self.uart.read(offset.wrapping_add(1));
                let b2: u8 = self.uart.read(offset.wrapping_add(2));
                let b3: u8 = self.uart.read(offset.wrapping_add(3));
                let b4: u8 = self.uart.read(offset.wrapping_add(4));
                let b5: u8 = self.uart.read(offset.wrapping_add(5));
                let b6: u8 = self.uart.read(offset.wrapping_add(6));
                let b7: u8 = self.uart.read(offset.wrapping_add(7));
                Ok(
                    (b0 as u64)
                    | ((b1 as u64) << 8)
                    | ((b2 as u64) << 16)
                    | ((b3 as u64) << 24)
                    | ((b4 as u64) << 32)
                    | ((b5 as u64) << 40)
                    | ((b6 as u64) << 48)
                    | ((b7 as u64) << 56),
                )
            },
            QemuRegion::Virtio { offset } => if offset % 4 == 0 {
                {
                    let low: u32 = self.virtio.read(offset);
                    let high: u32 = self.virtio.read(offset.wrapping_add(4));
                    Ok((low as u64) | ((high as u64) << 32))
                }
            } else {
                Err(())
            },
            QemuRegion::Unmapped => Err(()),
        }
    }

    pub fn write8(&mut self, addr: u64, data: u8) -> (r: Result<(), ()>)
        ensures
            (final(self)@, r) == old(self)@.write8(addr, data),
    {
        match qemu_region(addr) {
            QemuRegion::Dram { offset } => self.dram.checked_write8(offset, data),
            QemuRegion::Dtb { .. } => Err(()),
            QemuRegion::Mrom { .. } => Err(()),
            QemuRegion::Timer { .. } => Err(()),
            QemuRegion::Intc { .. } => Err(()),
            QemuRegion::Uart { offset } => {
                self.uart.write(offset, data);
                Ok(())
            },
            QemuRegion::Virtio { .. } => Err(()),
            QemuRegion::Unmapped => Err(()),
        }
    }

    pub fn write16(&mut self, addr: u64, data: u16) -> (r: Result<(), ()>)
        ensures
            (final(self)@, r) == old(self)@.write16(addr, data),
    {
        match qemu_region(addr) {
            QemuRegion::Dram { offset } => self.dram.checked_write16(offset, data),
            QemuRegion::Dtb { .. } => Err(()),
            QemuRegion::Mrom { .. } => Err(()),
            QemuRegion::Timer { .. } => Err(()),
            QemuRegion::Intc { .. } => Err(()),
            QemuRegion::Uart { offset } => {
                self.uart.write(offset, (data & 0xff) as u8);
                self.uart.write(offset.wrapping_add(1), ((data >> 8) & 0xff) as u8);
                Ok(())
            },
            QemuRegion::Virtio { .. } => Err(()),
            QemuRegion::Unmapped => Err(()),
        }
    }

    pub fn write32(&mut self, addr: u64, data: u32) -> (r: Result<(), ()>)
        ensures
            (final(self)@, r) == old(self)@.write32(addr, data),
    {
        match qemu_region(addr) {
            QemuRegion::Dram { offset } => self.dram.checked_write32(offset, data),
            QemuRegion::Dtb { .. } => Err(()),
            QemuRegion::Mrom { .. } => Err(()),
            QemuRegion::Timer { offset } => if offset % 4 == 0 {
                {
                    self.timer.write(offset, data);
                    Ok(())
                }
            } else {
                Err(())
            },
            QemuRegion::Intc { offset } => if offset % 4 == 0 {
                {
                    self.intc.write(offset, data);
                    Ok(())
                }
            } else {
                Err(())
            },
            QemuRegion::Uart { offset } => {
                self.uart.write(offset, (data & 0xff) as u8);
                self.uart.write(offset.wrapping_add(1), ((data >> 8) & 0xff) as u8);
                self.uart.write(offset.wrapping_add(2), ((data >> 16) & 0xff) as u8);
                self.uart.write(offset.wrapping_add(3), ((data >> 24) & 0xff) as u8);
                Ok(())
            },
            QemuRegion::Virtio { offset } => if offset % 4 == 0 {
                {
                    self.virtio.write(offset, data);
                    Ok(())
                }
            } else {
                Err(())
            },
            QemuRegion::Unmapped => Err(()),
        }
    }

    pub fn write64(&mut self, addr: u64, data: u64) -> (r: Result<(), ()>)
        ensures
            (final(self)@, r) == old(self)@.write64(addr, data),
    {
        match qemu_region(addr) {
            QemuRegion::Dram { offset } => self.dram.checked_write64(offset, data),
            QemuRegion::Dtb { .. } => Err(()),
            QemuRegion::Mrom { .. } => Err(()),
            QemuRegion::Timer { offset } => if offset % 4 == 0 {
                {
                    self.timer.write(offset, data as u32);
                    self.timer.write(offset.wrapping_add(4), (data >> 32) as u32);
                    Ok(())
                }
            } else {
                Err(())
            },
            QemuRegion::Intc { offset } => if offset % 4 == 0 {
                {
                    self.intc.write(offset, data as u32);
                    self.intc.write(offset.wrapping_add(4), (data >> 32) as u32);
                    Ok(())
                }
            } else {
                Err(())
            },
            QemuRegion::Uart { offset } => {
                self.uart.write(offset, (data & 0xff) as u8);
                self.uart.write(offset.wrapping_add(1), ((data >> 8) & 0xff) as u8);
                self.uart.write(offset.wrapping_add(2), ((data >> 16) & 0xff) as u8);
                self.uart.write(offset.wrapping_add(3), ((data >> 24) & 0xff) as u8);
                self.uart.write(offset.wrapping_add(4), ((data >> 32) & 0xff) as u8);
                self.uart.write(offset.wrapping_add(5), ((data >> 40) & 0xff) as u8);
                self.uart.write(offset.wrapping_add(6), ((data >> 48) & 0xff) as u8);
                self.uart.write(offset.wrapping_add(7), ((data >> 56) & 0xff) as u8);
                Ok(())
            },
            QemuRegion::Virtio { offset } => if offset % 4 == 0 {
                {
                    self.virtio.write(offset, data as u32);
                    self.virtio.write(offset.wrapping_add(4), (data >> 32) as u32);
                    Ok(())
                }
            } else {
                Err(())
            },
            QemuRegion::Unmapped => Err(()),
        }
    }

}

} // verus!
