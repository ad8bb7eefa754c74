use riscv_emu::bus::bus::{Bus, Device};
use riscv_emu::bus::bus_fe310::{fe310_region, BusFe310, Fe310Region};
use riscv_emu::bus::bus_qemu_virt::{qemu_region, BusQemuVirt, QemuRegion};
use riscv_emu::console::{Console, TtyDummy, TtyWeb};
use riscv_emu::machine::Machine;

fn qemu() -> BusQemuVirt {
    BusQemuVirt::new(Box::new(TtyDummy::new()))
}

fn fe310() -> BusFe310 {
    BusFe310::new(Box::new(TtyDummy::new()))
}

#[test]
fn qemu_virt_address_map() {
    assert_eq!(qemu_region(0x8000_0000), QemuRegion::Dram { offset: 0 });
    assert_eq!(qemu_region(0x8fff_ffff), QemuRegion::Dram { offset: 0x0fff_ffff });
    assert_eq!(qemu_region(u64::MAX), QemuRegion::Dram { offset: 0xffff_ffff_7fff_ffff });
    assert_eq!(qemu_region(0x1000), QemuRegion::Mrom { offset: 0 });
    assert_eq!(qemu_region(0x101f), QemuRegion::Mrom { offset: 0x1f });
    assert_eq!(qemu_region(0x1020), QemuRegion::Dtb { offset: 0 });
    assert_eq!(qemu_region(0x1fff), QemuRegion::Dtb { offset: 0xfdf });
    assert_eq!(qemu_region(0x2000), QemuRegion::Mrom { offset: 0x1000 });
    assert_eq!(qemu_region(0xffff), QemuRegion::Mrom { offset: 0xefff });
    assert_eq!(qemu_region(0x1_0000), QemuRegion::Unmapped);
    assert_eq!(qemu_region(0x0200_0000), QemuRegion::Timer { offset: 0 });
    assert_eq!(qemu_region(0x0200_bff8), QemuRegion::Timer { offset: 0xbff8 });
    assert_eq!(qemu_region(0x0c00_0000), QemuRegion::Intc { offset: 0 });
    assert_eq!(qemu_region(0x0c20_1004), QemuRegion::Intc { offset: 0x20_1004 });
    assert_eq!(qemu_region(0x1000_0000), QemuRegion::Uart { offset: 0 });
    assert_eq!(qemu_region(0x1000_1000), QemuRegion::Virtio { offset: 0 });
    assert_eq!(qemu_region(0x1000_2000), QemuRegion::Unmapped);
    assert_eq!(qemu_region(0), QemuRegion::Unmapped);
    assert_eq!(qemu_region(0x7fff_ffff), QemuRegion::Unmapped);
}

#[test]
fn fe310_address_map() {
    assert_eq!(fe310_region(0x0200_0000), Fe310Region::Timer { offset: 0 });
    assert_eq!(fe310_region(0x0c00_0028), Fe310Region::Intc { offset: 0x28 });
    assert_eq!(fe310_region(0x1000_8008), Fe310Region::Prci { offset: 8 });
    assert_eq!(fe310_region(0x1001_2000), Fe310Region::Gpio { offset: 0 });
    assert_eq!(fe310_region(0x1001_3004), Fe310Region::Uart0 { offset: 4 });
    assert_eq!(fe310_region(0x1002_3004), Fe310Region::Uart1 { offset: 4 });
    assert_eq!(fe310_region(0x2000_0000), Fe310Region::SpiFlash { offset: 0 });
    assert_eq!(fe310_region(0x3fff_ffff), Fe310Region::SpiFlash { offset: 0x1fff_ffff });
    assert_eq!(fe310_region(0x4000_0000), Fe310Region::Unmapped);
    assert_eq!(fe310_region(0x8000_3fff), Fe310Region::Dtim { offset: 0x3fff });
    assert_eq!(fe310_region(0x1000_0000), Fe310Region::Unmapped);
    assert_eq!(fe310_region(0x1020), Fe310Region::Unmapped);
}

#[test]
fn qemu_virt_dram_holds_every_width() {
    let mut bus = qemu();
    assert_eq!(bus.write64(0x8000_0100, 0x1122_3344_5566_7788), Ok(()));
    assert_eq!(bus.read64(0x8000_0100), Ok(0x1122_3344_5566_7788));
    assert_eq!(bus.read32(0x8000_0104), Ok(0x1122_3344));
    assert_eq!(bus.read16(0x8000_0102), Ok(0x5566));
    assert_eq!(bus.read8(0x8000_0107), Ok(0x11));
    assert_eq!(bus.write8(0x8000_0100, 0xaa), Ok(()));
    assert_eq!(bus.write16(0x8000_0101, 0xbbcc), Ok(()));
    assert_eq!(bus.write32(0x8000_0103, 0xddee_ff00), Ok(()));
    assert_eq!(bus.read64(0x8000_0100), Ok(0x11dd_eeff_00bb_ccaa));
}

#[test]
fn qemu_virt_dram_ends_after_256_mib() {
    let mut bus = qemu();
    assert_eq!(bus.read8(0x8fff_ffff), Ok(0));
    assert_eq!(bus.read8(0x9000_0000), Err(()));
    assert_eq!(bus.read16(0x8fff_ffff), Err(()));
    assert_eq!(bus.read32(0x8fff_fffd), Err(()));
    assert_eq!(bus.read64(0x8fff_fff9), Err(()));
    assert_eq!(bus.write8(0x9000_0000, 1), Err(()));
    assert_eq!(bus.write64(0x8fff_fff9, 1), Err(()));
    assert_eq!(bus.write64(0x8fff_fff8, 1), Ok(()));
    assert_eq!(bus.read8(u64::MAX), Err(()));
    assert_eq!(bus.write32(0xffff_ffff_8000_0000, 1), Err(()));
}

#[test]
fn qemu_virt_unmapped_addresses_fail() {
    let mut bus = qemu();
    for addr in [0u64, 0xfff, 0x1_0000, 0x01ff_ffff, 0x0201_0000, 0x1000_2000, 0x7fff_fffc] {
        assert_eq!(bus.read8(addr), Err(()));
        assert_eq!(bus.read16(addr), Err(()));
        assert_eq!(bus.read32(addr), Err(()));
        assert_eq!(bus.read64(addr), Err(()));
        assert_eq!(bus.write8(addr, 0), Err(()));
        assert_eq!(bus.write16(addr, 0), Err(()));
        assert_eq!(bus.write32(addr, 0), Err(()));
        assert_eq!(bus.write64(addr, 0), Err(()));
    }
}

#[test]
fn qemu_virt_device_tree_and_rom_are_read_only() {
    let mut bus = qemu();
    assert!(bus.accepts_device_data(Device::DTB, 0xfe0));
    assert!(!bus.accepts_device_data(Device::DTB, 0xfe1));
    bus.set_device_data(Device::DTB, vec![0xd0, 0x0d, 0xfe, 0xed, 1, 2, 3, 4]);
    assert_eq!(bus.read32(0x1020), Ok(0xedfe_0dd0));
    assert_eq!(bus.read64(0x1020), Ok(0x0403_0201_edfe_0dd0));
    assert_eq!(bus.read16(0x1022), Ok(0xedfe));
    assert_eq!(bus.read8(0x1027), Ok(4));
    assert_eq!(bus.read8(0x1fff), Ok(0));
    assert_eq!(bus.read16(0x1fff), Err(()));
    assert_eq!(bus.write8(0x1020, 0), Err(()));
    assert_eq!(bus.write32(0x1020, 0), Err(()));
    assert_eq!(bus.read32(0x1020), Ok(0xedfe_0dd0));
    bus.mrom.write32(0x10, 0x1234_5678);
    assert_eq!(bus.read32(0x1010), Ok(0x1234_5678));
    assert_eq!(bus.write32(0x1010, 0), Err(()));
    assert_eq!(bus.write64(0x2000, 0), Err(()));
    assert_eq!(bus.read64(0xfff8), Ok(0));
    assert_eq!(bus.read64(0xfff9), Err(()));
}

#[test]
fn qemu_virt_device_registers_take_32_and_64_bits() {
    let mut bus = qemu();
    // CLINT
    assert_eq!(bus.write64(0x0200_4000, 0x0000_0001_0000_0002), Ok(()));
    assert_eq!(bus.timer.timer_compare, 0x1_0000_0002);
    assert_eq!(bus.read32(0x0200_4000), Ok(2));
    assert_eq!(bus.read32(0x0200_4004), Ok(1));
    assert_eq!(bus.read64(0x0200_4000), Ok(0x0000_0001_0000_0002));
    assert_eq!(bus.write32(0x0200_0000, 1), Ok(()));
    assert!(bus.is_pending_software_interrupt(0));
    assert_eq!(bus.read8(0x0200_0000), Err(()));
    assert_eq!(bus.read16(0x0200_0000), Err(()));
    assert_eq!(bus.write8(0x0200_0000, 0), Err(()));
    assert_eq!(bus.write16(0x0200_0000, 0), Err(()));
    assert!(bus.is_pending_software_interrupt(0));
    // PLIC
    assert_eq!(bus.write32(0x0c00_0028, 7), Ok(()));
    assert_eq!(bus.read32(0x0c00_0028), Ok(7));
    assert_eq!(bus.write64(0x0c00_0004, 0x0000_0003_0000_0002), Ok(()));
    assert_eq!(bus.read32(0x0c00_0004), Ok(2));
    assert_eq!(bus.read32(0x0c00_0008), Ok(3));
    assert_eq!(bus.read64(0x0c00_0004), Ok(0x0000_0003_0000_0002));
    assert_eq!(bus.read8(0x0c00_0028), Err(()));
    assert_eq!(bus.write16(0x0c00_0028, 1), Err(()));
    // virtio
    assert_eq!(bus.read32(0x1000_1000), Ok(0x7472_6976));
    assert_eq!(bus.read64(0x1000_1000), Ok(0x0000_0001_7472_6976));
    assert_eq!(bus.read8(0x1000_1000), Ok(0x76));
    assert_eq!(bus.read8(0x1000_1001), Ok(0x69));
    assert_eq!(bus.read8(0x1000_1002), Ok(0x72));
    assert_eq!(bus.read8(0x1000_1003), Ok(0x74));
    assert_eq!(bus.read16(0x1000_1000), Err(()));
    assert_eq!(bus.write8(0x1000_1070, 1), Err(()));
    assert_eq!(bus.write64(0x1000_1020, 0x0000_0005_0000_0004), Ok(()));
    assert_eq!(bus.virtio.driver_features, 4);
    assert_eq!(bus.virtio.driver_features_sel, 5);
}

#[test]
fn qemu_virt_uart_is_accessed_byte_by_byte() {
    let mut bus = qemu();
    assert_eq!(bus.read8(0x1000_0005), Ok(0x20));
    assert_eq!(bus.write8(0x1000_0007, 0x5a), Ok(()));
    assert_eq!(bus.read8(0x1000_0007), Ok(0x5a));
    // Registers 2 and 3 as one halfword: ISR reads idle, LCR reads what was written.
    assert_eq!(bus.write16(0x1000_0002, 0x03c7), Ok(()));
    assert_eq!(bus.uart.state.fcr, 0xc7);
    assert_eq!(bus.uart.state.lcr, 0x03);
    assert_eq!(bus.read16(0x1000_0002), Ok(0x030e));
    // Registers 4 to 7 as one word.
    assert_eq!(bus.write32(0x1000_0004, 0x7700_000b), Ok(()));
    assert_eq!(bus.read32(0x1000_0004), Ok(0x7700_200b));
    bus.uart.state.rhr = b'r';
    bus.uart.state.lsr = 0x21;
    assert_eq!(bus.read64(0x1000_0000), Ok(0x7700_200b_030e_0000 | b'r' as u64));
    assert_eq!(bus.uart.state.rhr, 0);
    assert_eq!(bus.write64(0x1000_0000, 0x1100_0000_0000_0241), Ok(()));
    assert_eq!(bus.uart.state.thr, 0x41);
    assert_eq!(bus.uart.state.ier, 0x02);
    assert_eq!(bus.uart.state.spr, 0x11);
}

#[test]
fn qemu_virt_tick_routes_the_uart_interrupt_through_the_plic() {
    let mut bus = BusQemuVirt::new(Box::new(TtyWeb::new()));
    bus.write32(0x0c00_0000 + 4 * 10, 1).unwrap();
    bus.write32(0x0c00_2000, 1 << 10).unwrap();
    bus.write32(0x0c00_2080, 1 << 10).unwrap();
    assert_eq!(bus.tick(), vec![false, false, false, false]);
    // Enable the transmitter-empty interrupt: the UART requests at once.
    bus.write8(0x1000_0001, 0x02).unwrap();
    assert_eq!(bus.tick(), vec![false, true, false, true]);
    assert_eq!(bus.read32(0x0c20_0004), Ok(10));
    assert_eq!(bus.read32(0x0c20_1004), Ok(10));
    assert_eq!(bus.read8(0x1000_0002), Ok(0x02));
    assert_eq!(bus.clock, 2);
    assert_eq!(bus.timer.mtime, 2);
    bus.write32(0x0c20_0000, 1).unwrap();
    assert_eq!(bus.tick(), vec![false, true, false, false]);
}

#[test]
fn qemu_virt_timer_interrupt_follows_the_clint() {
    let mut bus = qemu();
    bus.write64(0x0200_4000, 2).unwrap();
    assert!(!bus.is_pending_timer_interrupt(0));
    bus.tick();
    assert!(!bus.is_pending_timer_interrupt(0));
    bus.tick();
    assert!(bus.is_pending_timer_interrupt(0));
    assert!(!bus.is_pending_timer_interrupt(1));
    assert_eq!(bus.read64(0x0200_bff8), Ok(2));
}

#[test]
fn fe310_memories_and_registers() {
    let mut bus = fe310();
    assert_eq!(bus.write32(0x8000_0000, 0xcafe_f00d), Ok(()));
    assert_eq!(bus.read32(0x8000_0000), Ok(0xcafe_f00d));
    assert_eq!(bus.read8(0x8000_3fff), Ok(0));
    assert_eq!(bus.read8(0x8000_4000), Err(()));
    assert_eq!(bus.write64(0x8000_3ffc, 1), Err(()));
    assert_eq!(bus.write64(0x2000_0000, 0x0102_0304_0506_0708), Ok(()));
    assert_eq!(bus.read16(0x2000_0006), Ok(0x0102));
    assert_eq!(bus.read8(0x3fff_ffff), Ok(0));
    assert_eq!(bus.write32(0x1001_200c, 0x55), Ok(()));
    assert_eq!(bus.read32(0x1001_200c), Ok(0x55));
    assert_eq!(bus.read64(0x1001_2008), Ok(0x0000_0055_0000_0000));
    assert_eq!(bus.write64(0x1001_2000, 0x0000_0002_0000_0001), Ok(()));
    assert_eq!(bus.gpio.input_val, 1);
    assert_eq!(bus.gpio.input_en, 2);
    assert_eq!(bus.read32(0x1000_8000), Ok(0x8000_0000));
    assert_eq!(bus.write32(0x1000_800c, 0x100), Ok(()));
    assert_eq!(bus.read64(0x1000_8008), Ok(0x0000_0100_8000_0000));
    for addr in [0x0200_0000u64, 0x0c00_0000, 0x1000_8000, 0x1001_2000, 0x1001_3000, 0x1002_3000] {
        assert_eq!(bus.read8(addr), Err(()));
        assert_eq!(bus.read16(addr), Err(()));
        assert_eq!(bus.write8(addr, 0), Err(()));
        assert_eq!(bus.write16(addr, 0), Err(()));
    }
    assert_eq!(bus.read32(0x1000_0000), Err(()));
    assert_eq!(bus.write32(0x4000_0000, 0), Err(()));
}

#[test]
fn fe310_uarts_are_separate() {
    let mut bus = BusFe310::new(Box::new(TtyWeb::new()));
    assert_eq!(bus.write32(0x1001_3000, b'a' as u32), Ok(()));
    assert_eq!(bus.write32(0x1002_3000, b'b' as u32), Ok(()));
    assert_eq!(bus.uart0.t_fifo, vec![b'a']);
    assert_eq!(bus.uart1.t_fifo, vec![b'b']);
    assert_eq!(bus.read32(0x1001_3004), Ok(0x8000_0000));
    bus.uart0.r_fifo.push(b'x');
    bus.uart0.r_fifo.push(b'y');
    assert_eq!(bus.read64(0x1001_3000), Ok(((b'x' as u64) << 32) | b'a' as u64));
    assert_eq!(bus.read32(0x1001_3004), Ok(b'y' as u32));
    assert_eq!(bus.read32(0x1001_3004), Ok(0x8000_0000));
    for _ in 0..15 {
        bus.tick();
    }
    assert_eq!(bus.get_console().get_output(), b'a');
    assert_eq!(bus.uart1.t_fifo.len(), 0);
    assert_eq!(bus.clock, 15);
}

#[test]
fn fe310_tick_routes_uart_interrupts_through_the_plic() {
    let mut bus = fe310();
    bus.write32(0x0c00_0000 + 4 * 3, 1).unwrap();
    bus.write32(0x0c00_0000 + 4 * 4, 2).unwrap();
    bus.write32(0x0c00_2000, (1 << 3) | (1 << 4)).unwrap();
    assert_eq!(bus.tick(), vec![false, false, false, false]);
    bus.uart0.ie = 2;
    bus.uart0.ip = 2;
    assert_eq!(bus.tick(), vec![false, false, false, true]);
    assert_eq!(bus.read32(0x0c20_0004), Ok(3));
    bus.uart1.ie = 1;
    bus.uart1.ip = 1;
    assert_eq!(bus.tick(), vec![false, false, false, true]);
    assert_eq!(bus.read32(0x0c20_0004), Ok(4));
}

#[test]
fn device_data_goes_to_the_devices_of_the_machine() {
    let mut bus = Bus::new(Machine::QemuVirt, Box::new(TtyDummy::new()));
    assert!(bus.accepts_device_data(Device::Dram, 0x1000_0000));
    assert!(!bus.accepts_device_data(Device::Dram, 0x1000_0001));
    assert!(bus.accepts_device_data(Device::Disk, 12345));
    assert!(!bus.accepts_device_data(Device::SpiFlash, 0));
    bus.set_device_data(Device::Dram, vec![1, 2, 3, 4]);
    assert_eq!(bus.read32(0x8000_0000), Ok(0x0403_0201));
    bus.set_device_data(Device::Disk, vec![9; 1024]);
    if let Bus::QemuVirt(b) = &bus {
        assert_eq!(b.virtio.disk_image.len(), 1024);
    } else {
        panic!("the virt board has its own bus");
    }
    assert!(bus.has_base_address(Device::Dram));
    assert!(bus.has_base_address(Device::DTB));
    assert!(!bus.has_base_address(Device::SpiFlash));
    assert!(!bus.has_base_address(Device::Disk));
    assert_eq!(bus.get_base_address(Device::Dram), 0x8000_0000);
    assert_eq!(bus.get_base_address(Device::DTB), 0x1020);

    let mut bus = Bus::new(Machine::SiFiveE, Box::new(TtyDummy::new()));
    assert!(bus.accepts_device_data(Device::SpiFlash, 0x2000_0000));
    assert!(!bus.accepts_device_data(Device::SpiFlash, 0x2000_0001));
    assert!(!bus.accepts_device_data(Device::Dram, 0));
    assert!(!bus.accepts_device_data(Device::Disk, 0));
    assert!(!bus.accepts_device_data(Device::DTB, 0));
    bus.set_device_data(Device::SpiFlash, vec![5, 6, 7, 8]);
    assert_eq!(bus.read32(0x2000_0000), Ok(0x0807_0605));
    assert_eq!(bus.get_base_address(Device::SpiFlash), 0x2000_0000);
    assert_eq!(bus.get_base_address(Device::DTB), 0x1020);
    assert!(!bus.has_base_address(Device::Dram));
    assert_eq!(bus.read8(0x8000_4000), Err(()));
}

#[test]
fn the_fu540_has_external_dram() {
    let mut bus = Bus::new(Machine::SiFiveU, Box::new(TtyDummy::new()));
    assert!(matches!(bus, Bus::Fe310(_)));
    assert_eq!(bus.write32(0x8000_4000, 0x1234_5678), Ok(()));
    assert_eq!(bus.read32(0x8000_4000), Ok(0x1234_5678));
    assert_eq!(bus.read8(0x8fff_ffff), Ok(0));
    assert_eq!(bus.read8(0x9000_0000), Err(()));
    assert_eq!(bus.tick(), vec![false, false, false, false]);
    assert!(!bus.is_pending_timer_interrupt(0));
    assert!(!bus.is_pending_software_interrupt(0));
}

#[test]
fn device_registers_need_word_alignment() {
    let mut bus = qemu();
    for base in [0x0200_0000u64, 0x0c00_0000, 0x1000_1000] {
        for off in 1..4 {
            assert_eq!(bus.read32(base + off), Err(()));
            assert_eq!(bus.read64(base + off), Err(()));
            assert_eq!(bus.write32(base + off, 1), Err(()));
            assert_eq!(bus.write64(base + off, 1), Err(()));
        }
        assert!(bus.read32(base + 4).is_ok());
        assert!(bus.read64(base + 4).is_ok());
    }
    assert_eq!(bus.timer.msip, 0);
    // Memory and the 16550 take any alignment.
    assert_eq!(bus.write32(0x8000_0001, 0x0102_0304), Ok(()));
    assert_eq!(bus.read32(0x8000_0001), Ok(0x0102_0304));
    assert!(bus.read32(0x1000_0001).is_ok());
    let mut bus = fe310();
    for base in [0x0200_0000u64, 0x0c00_0000, 0x1000_8000, 0x1001_2000, 0x1001_3000, 0x1002_3000] {
        for off in 1..4 {
            assert_eq!(bus.read32(base + off), Err(()));
            assert_eq!(bus.read64(base + off), Err(()));
            assert_eq!(bus.write32(base + off, 1), Err(()));
            assert_eq!(bus.write64(base + off, 1), Err(()));
        }
        assert!(bus.read32(base + 8).is_ok());
    }
    assert_eq!(bus.uart0.t_fifo.len(), 0);
    assert_eq!(bus.write64(0x2000_0003, 0x0102_0304_0506_0708), Ok(()));
    assert_eq!(bus.read64(0x2000_0003), Ok(0x0102_0304_0506_0708));
}
