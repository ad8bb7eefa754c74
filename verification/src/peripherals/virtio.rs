use vstd::prelude::*;

use crate::peripherals::memory::{le16, le32, le64, store16, store32, store8, Memory};

verus! {

pub const CONFIG_QUEUE_NUM_MAX: u32 = 0x1000;
pub const CONFIG_DISK_SECTOR_SIZE: u64 = 512;
pub const CONFIG_DMA_DELAY: u64 = 128;

pub const VIRTIO_MAGIC_VALUE: u64 = 0x000;
pub const VIRTIO_VERSION: u64 = 0x004;
pub const VIRTIO_DEVICE_ID: u64 = 0x008;
pub const VIRTIO_VENDOR_ID: u64 = 0x00c;
pub const VIRTIO_DEVICE_FEATURES: u64 = 0x010;
pub const VIRTIO_DEVICE_FEATURES_SEL: u64 = 0x014;
pub const VIRTIO_DRIVER_FEATURES: u64 = 0x020;
pub const VIRTIO_DRIVER_FEATURES_SEL: u64 = 0x024;
pub const VIRTIO_GUEST_PAGE_SIZE: u64 = 0x028;
pub const VIRTIO_QUEUE_SEL: u64 = 0x030;
pub const VIRTIO_QUEUE_NUM_MAX: u64 = 0x034;
pub const VIRTIO_QUEUE_NUM: u64 = 0x038;
pub const VIRTIO_QUEUE_ALIGIN: u64 = 0x03c;
pub const VIRTIO_QUEUE_PFN: u64 = 0x040;
pub const VIRTIO_QUEUE_NOTIFY: u64 = 0x050;
pub const VIRTIO_INTERRUPT_STATUS: u64 = 0x060;
pub const VIRTIO_INTERRUPT_ACK: u64 = 0x064;
pub const VIRTIO_DEVICE_STATUS: u64 = 0x070;
pub const VIRTIO_CONFIG_SPACE0: u64 = 0x100;
pub const VIRTIO_CONFIG_SPACE1: u64 = 0x104;

/// "virt", little-endian.
pub const VIRTIO_MAGIC: u32 = 0x7472_6976;
/// The legacy interface.
pub const VIRTIO_LEGACY_VERSION: u32 = 0x1;
/// A block device.
pub const VIRTIO_BLOCK_DEVICE: u32 = 0x2;
pub const VIRTIO_VENDOR: u32 = 0x554d_4551;

pub const VIRTIO_INTERRUPT_QUEUE: u32 = 0x1;
pub const VIRTIO_INTERRUPT_CONFIGURATION: u32 = 0x2;

pub const DESCRIPTOR_SIZE: u64 = 16;
pub const VRING_DESC_F_NEXT: u16 = 0x1;
pub const VRING_DESC_F_WRITE: u16 = 0x2;
pub const VRING_DESC_F_INDIRECT: u16 = 0x4;

/// The status byte of a request that was served.
pub const VIRTIO_BLK_S_OK: u8 = 0;

/// Where the three parts of the virtqueue lie, as offsets into DRAM.
#[derive(Clone, Copy, Debug, PartialEq, Eq, Structural)]
pub struct Virtqueue {
    pub descriptor_table_head: u64,
    pub available_ring_head: u64,
    pub used_ring_head: u64,
}

/// One entry of the descriptor table; `addr` is an offset into DRAM and
/// `next` is already reduced modulo the queue size.
#[derive(Clone, Copy, Debug, PartialEq, Eq, Structural)]
pub struct Descriptor {
    pub addr: u64,
    pub len: u32,
    pub flags: u16,
    pub next: u64,
}

/// A block request read from the virtqueue, with every address checked
/// against the sizes of DRAM and of the disk.
#[derive(Clone, Copy, Debug, PartialEq, Eq, Structural)]
pub struct Request {
    /// Index of the first descriptor of the chain.
    pub head: u64,
    /// Offset of the data buffer in DRAM.
    pub data_addr: u64,
    /// Length of the data buffer in bytes.
    pub len: u64,
    /// Offset of the first byte on the disk: the sector number times 512.
    pub disk_addr: u64,
    /// The device writes the buffer: the request reads from the disk.
    pub to_memory: bool,
    /// Offset of the status byte in DRAM.
    pub status_addr: u64,
    /// Offset in DRAM of the used ring element that reports the request.
    pub used_entry: u64,
    /// Offset in DRAM of the index field of the used ring.
    pub used_idx: u64,
    /// The ring index after this request.
    pub next_idx: u64,
}

/// `dst` with the `len` bytes from `dst_at` on replaced by those of `src`
/// from `src_at` on.
pub open spec fn copy_bytes(dst: Seq<u8>, dst_at: int, src: Seq<u8>, src_at: int, len: int) -> Seq<
    u8,
> {
    Seq::new(
        dst.len(),
        |i: int|
            if dst_at <= i < dst_at + len {
                src[src_at + i - dst_at]
            } else {
                dst[i]
            },
    )
}

/// The descriptor at `index` of the table at offset `table_head` of the
/// memory `m`: a 64-bit guest-physical address, a 32-bit length, 16 bits
/// of flags and a 16-bit link. `None` if the entry does not lie in `m` or
/// its address lies below `dram_base`.
pub open spec fn spec_descriptor(
    m: Seq<u8>,
    table_head: u64,
    index: u64,
    dram_base: u64,
    queue_size: u64,
) -> Option<Descriptor> {
    let entity = table_head + DESCRIPTOR_SIZE * index;
    if queue_size != 0 && entity + DESCRIPTOR_SIZE <= m.len() && le64(m, entity) >= dram_base {
        Some(
            Descriptor {
                addr: (le64(m, entity) - dram_base) as u64,
                len: le32(m, entity + 8),
                flags: le16(m, entity + 12),
                next: (le16(m, entity + 14) as u64) % queue_size,
            },
        )
    } else {
        None
    }
}

/// The registers of the device, the disk image and the state of the queue.
pub struct VirtioView {
    pub cycle: u64,
    pub disk: Seq<u8>,
    pub last_available_idx: u64,
    pub dram_base_addr: u64,
    pub device_features_sel: u32,
    pub driver_features: u32,
    pub driver_features_sel: u32,
    pub guest_page_size: u32,
    pub queue_sel: u32,
    pub queue_num: u32,
    pub queue_align: u32,
    pub queue_pfn: u32,
    pub queue_notify: Seq<u64>,
    pub interrupt_status: u32,
    pub device_status: u32,
    pub config_space: Seq<u32>,
}

impl VirtioView {
    /// The state after reset of a device without a disk, on a machine
    /// whose DRAM starts at `dram_base_addr`: no queue is set up, the used
    /// ring is aligned to 4096 bytes, and the configuration space reports
    /// 0x20000 sectors.
    pub open spec fn reset(dram_base_addr: u64) -> VirtioView {
        VirtioView {
            cycle: 0,
            disk: Seq::empty(),
            last_available_idx: 0,
            dram_base_addr,
            device_features_sel: 0,
            driver_features: 0,
            driver_features_sel: 0,
            guest_page_size: 0,
            queue_sel: 0,
            queue_num: 0,
            queue_align: 0x1000,
            queue_pfn: 0,
            queue_notify: Seq::empty(),
            interrupt_status: 0,
            device_status: 0,
            config_space: seq![0x20000u32, 0u32],
        }
    }

    /// What a read of the register at offset `addr` returns; 0 at an offset
    /// that holds no readable register.
    pub open spec fn read(self, addr: u64) -> u32 {
        if addr == VIRTIO_MAGIC_VALUE {
            VIRTIO_MAGIC
        } else if addr == VIRTIO_VERSION {
            VIRTIO_LEGACY_VERSION
        } else if addr == VIRTIO_DEVICE_ID {
            VIRTIO_BLOCK_DEVICE
        } else if addr == VIRTIO_VENDOR_ID {
            VIRTIO_VENDOR
        } else if addr == VIRTIO_DEVICE_FEATURES {
            self.device_features_sel
        } else if addr == VIRTIO_QUEUE_NUM_MAX {
            CONFIG_QUEUE_NUM_MAX
        } else if addr == VIRTIO_QUEUE_PFN {
            self.queue_pfn
        } else if addr == VIRTIO_INTERRUPT_STATUS {
            self.interrupt_status
        } else if addr == VIRTIO_DEVICE_STATUS {
            self.device_status
        } else if addr == VIRTIO_CONFIG_SPACE0 {
            self.config_space[0]
        } else if addr == VIRTIO_CONFIG_SPACE1 {
            self.config_space[1]
        } else {
            0
        }
    }

    /// The state after `data` was written to the register at offset
    /// `addr`. A write to the notify register schedules a transfer; a write
    /// to the acknowledge register clears the interrupt bits that are set in
    /// `data`; a write to an offset that holds no writable register changes
    /// nothing.
    pub open spec fn written(self, addr: u64, data: u32) -> VirtioView {
        if addr == VIRTIO_DEVICE_FEATURES_SEL {
            VirtioView { device_features_sel: data, ..self }
        } else if addr == VIRTIO_DRIVER_FEATURES {
            VirtioView { driver_features: data, ..self }
        } else if addr == VIRTIO_DRIVER_FEATURES_SEL {
            VirtioView { driver_features_sel: data, ..self }
        } else if addr == VIRTIO_GUEST_PAGE_SIZE {
            VirtioView { guest_page_size: data, ..self }
        } else if addr == VIRTIO_QUEUE_SEL {
            VirtioView { queue_sel: data, ..self }
        } else if addr == VIRTIO_QUEUE_NUM {
            VirtioView { queue_num: data, ..self }
        } else if addr == VIRTIO_QUEUE_ALIGIN {
            VirtioView { queue_align: data, ..self }
        } else if addr == VIRTIO_QUEUE_PFN {
            VirtioView { queue_pfn: data, ..self }
        } else if addr == VIRTIO_QUEUE_NOTIFY {
            VirtioView { queue_notify: self.queue_notify.push(self.cycle), ..self }
        } else if addr == VIRTIO_INTERRUPT_ACK {
            VirtioView {
                interrupt_status: self.interrupt_status & !(data & (VIRTIO_INTERRUPT_QUEUE
                    | VIRTIO_INTERRUPT_CONFIGURATION)),
                ..self
            }
        } else if addr == VIRTIO_DEVICE_STATUS {
            VirtioView { device_status: data, ..self }
        } else if addr == VIRTIO_CONFIG_SPACE0 {
            VirtioView { config_space: self.config_space.update(0, data), ..self }
        } else if addr == VIRTIO_CONFIG_SPACE1 {
            VirtioView { config_space: self.config_space.update(1, data), ..self }
        } else {
            self
        }
    }

    /// Whether an interrupt is requested.
    pub open spec fn irq(self) -> bool {
        self.interrupt_status & 0x3 > 0
    }

    /// Where the virtqueue lies. The descriptor table is at the guest page
    /// `queue_pfn`; the available ring follows its `queue_num` entries of 16
    /// bytes; the used ring follows the available ring (4 bytes and
    /// `queue_num` entries of 2 bytes) at the next multiple of `queue_align`.
    /// Offsets wrap at 2^64. `None` while the alignment is zero.
    pub open spec fn virtqueue(self) -> Option<Virtqueue> {
        if self.queue_align == 0 {
            None
        } else {
            let queue_size = self.queue_num as u64;
            let align = self.queue_align as u64;
            let page_addr = (self.queue_pfn as u64).wrapping_mul(self.guest_page_size as u64);
            let table = page_addr.wrapping_sub(self.dram_base_addr);
            let available = table.wrapping_add((queue_size * 16) as u64);
            let end = available.wrapping_add((4 + queue_size * 2 + align - 1) as u64);
            Some(
                Virtqueue {
                    descriptor_table_head: table,
                    available_ring_head: available,
                    used_ring_head: (end - end % align) as u64,
                },
            )
        }
    }

    /// The descriptor at `index` of the table at `table_head` in the memory `m`.
    pub open spec fn descriptor(self, m: Seq<u8>, table_head: u64, index: u64) -> Option<
        Descriptor,
    > {
        spec_descriptor(m, table_head, index, self.dram_base_addr, self.queue_num as u64)
    }

    /// The request that the driver has made available next, read from the
    /// memory `m`. The head of the chain is the entry of the available ring
    /// at the ring index. The first descriptor points at the header, whose
    /// sector number is at offset 8; the second describes the data buffer,
    /// its write flag says that the device writes it; the third points at
    /// the status byte. `None` if the queue is not set up, or if any of
    /// these, the used ring element or the data on the disk does not lie
    /// within the memory and the disk.
    pub open spec fn request(self, m: Seq<u8>) -> Option<Request> {
        let queue_size = self.queue_num as u64;
        let last = self.last_available_idx;
        match self.virtqueue() {
            None => None,
            Some(vq) => {
                let slot = vq.available_ring_head + 4 + last * 2;
                let entry = vq.used_ring_head + 4 + last * 8;
                if queue_size == 0 || last >= queue_size || slot + 2 > m.len() || entry + 8
                    > m.len() {
                    None
                } else {
                    let head = (le16(m, slot) as u64) % queue_size;
                    match self.descriptor(m, vq.descriptor_table_head, head) {
                        None => None,
                        Some(d0) => if d0.addr + 16 > m.len() {
                            None
                        } else {
                            let sector = le64(m, d0.addr + 8);
                            match self.descriptor(m, vq.descriptor_table_head, d0.next) {
                                None => None,
                                Some(d1) => match self.descriptor(
                                    m,
                                    vq.descriptor_table_head,
                                    d1.next,
                                ) {
                                    None => None,
                                    Some(d2) => if sector * CONFIG_DISK_SECTOR_SIZE + d1.len
                                        > self.disk.len() || d1.addr + d1.len > m.len() || d2.addr
                                        >= m.len() {
                                        None
                                    } else {
                                        Some(
                                            Request {
                                                head,
                                                data_addr: d1.addr,
                                                len: d1.len as u64,
                                                disk_addr: (sector * CONFIG_DISK_SECTOR_SIZE) as u64,
                                                to_memory: d1.flags & VRING_DESC_F_WRITE != 0,
                                                status_addr: d2.addr,
                                                used_entry: entry as u64,
                                                used_idx: (vq.used_ring_head + 2) as u64,
                                                next_idx: ((last + 1) % (queue_size as int)) as u64,
                                            },
                                        )
                                    },
                                },
                            }
                        },
                    }
                }
            },
        }
    }

    /// The disk after the request `r` was served from the memory `m`: a
    /// request that the device only reads has its buffer written to the disk.
    pub open spec fn disk_after(self, m: Seq<u8>, r: Request) -> Seq<u8> {
        if r.to_memory {
            self.disk
        } else {
            copy_bytes(self.disk, r.disk_addr as int, m, r.data_addr as int, r.len as int)
        }
    }

    /// The memory after the request `r` was served: the data from the disk
    /// in the buffer if the device writes it, the status byte OK, a used
    /// ring element that names the chain and reports length 0, and the new
    /// ring index in the used ring.
    pub open spec fn memory_after(self, m: Seq<u8>, r: Request) -> Seq<u8> {
        let moved = if r.to_memory {
            copy_bytes(m, r.data_addr as int, self.disk, r.disk_addr as int, r.len as int)
        } else {
            m
        };
        let status = store8(moved, r.status_addr as int, VIRTIO_BLK_S_OK);
        let id = store32(status, r.used_entry as int, r.head as u32);
        let len = store32(id, r.used_entry + 4, 0);
        store16(len, r.used_idx as int, r.next_idx as u16)
    }

    /// The state after the next request was served from the memory `m`; the
    /// state itself where there is no well-formed request.
    pub open spec fn transferred(self, m: Seq<u8>) -> VirtioView {
        match self.request(m) {
            None => self,
            Some(r) => VirtioView {
                disk: self.disk_after(m, r),
                last_available_idx: r.next_idx,
                ..self
            },
        }
    }

    /// The memory after the next request was served; the memory itself
    /// where there is no well-formed request.
    pub open spec fn transferred_memory(self, m: Seq<u8>) -> Seq<u8> {
        match self.request(m) {
            None => m,
            Some(r) => self.memory_after(m, r),
        }
    }

    /// Whether the next tick completes a transfer: the oldest notification
    /// is 128 ticks old.
    pub open spec fn completes(self) -> bool {
        self.queue_notify.len() > 0 && self.cycle.wrapping_add(1)
            == self.queue_notify[0].wrapping_add(CONFIG_DMA_DELAY)
    }

    /// The state after one tick with the memory `m`. A tick that completes
    /// a transfer serves the next request, raises the used-ring interrupt
    /// and drops the notification.
    pub open spec fn after_tick(self, m: Seq<u8>) -> VirtioView {
        if self.completes() {
            let served = self.transferred(m);
            VirtioView {
                cycle: self.cycle.wrapping_add(1),
                interrupt_status: self.interrupt_status | VIRTIO_INTERRUPT_QUEUE,
                queue_notify: self.queue_notify.remove(0),
                ..served
            }
        } else {
            VirtioView { cycle: self.cycle.wrapping_add(1), ..self }
        }
    }

    /// The memory after one tick.
    pub open spec fn memory_after_tick(self, m: Seq<u8>) -> Seq<u8> {
        if self.completes() {
            self.transferred_memory(m)
        } else {
            m
        }
    }
}

/// A virtio block device behind the legacy MMIO transport.
pub struct Virtio {
    /// The number of ticks so far.
    pub cycle: u64,
    /// The disk image.
    pub disk_image: Vec<u8>,
    /// The index into the rings of the next request.
    pub last_available_idx: u64,
    /// The guest-physical address of the first byte of DRAM.
    pub dram_base_addr: u64,
    pub device_features_sel: u32,
    pub driver_features: u32,
    pub driver_features_sel: u32,
    pub guest_page_size: u32,
    pub queue_sel: u32,
    pub queue_num: u32,
    pub queue_align: u32,
    pub queue_pfn: u32,
    /// The ticks at which the driver notified the device, oldest first.
    pub queue_notify: Vec<u64>,
    pub interrupt_status: u32,
    pub device_status: u32,
    pub config_space: [u32; 2],
}

impl View for Virtio {
    type V = VirtioView;

    open spec fn view(&self) -> VirtioView {
        VirtioView {
            cycle: self.cycle,
            disk: self.disk_image@,
            last_available_idx: self.last_available_idx,
            dram_base_addr: self.dram_base_addr,
            device_features_sel: self.device_features_sel,
            driver_features: self.driver_features,
            driver_features_sel: self.driver_features_sel,
            guest_page_size: self.guest_page_size,
            queue_sel: self.queue_sel,
            queue_num: self.queue_num,
            queue_align: self.queue_align,
            queue_pfn: self.queue_pfn,
            queue_notify: self.queue_notify@,
            interrupt_status: self.interrupt_status,
            device_status: self.device_status,
            config_space: self.config_space@,
        }
    }
}

impl Virtio {
    /// A device without a disk, for a machine whose DRAM starts at `dram_base_addr_`.
    pub fn new(dram_base_addr_: u64) -> (virtio: Self)
        ensures
            virtio@ == VirtioView::reset(dram_base_addr_),
    {
        let virtio = Virtio {
            cycle: 0,
            disk_image: Vec::new(),
            last_available_idx: 0,
            dram_base_addr: dram_base_addr_,
            device_features_sel: 0,
            driver_features: 0,
            driver_features_sel: 0,
            guest_page_size: 0,
            queue_sel: 0,
            queue_num: 0,
            queue_align: 0x1000,
            queue_pfn: 0,
            queue_notify: Vec::new(),
            interrupt_status: 0,
            device_status: 0,
            config_space: [0x20000, 0],
        };
        assert(virtio@.config_space =~= seq![0x20000u32, 0u32]);
        assert(virtio@.disk =~= Seq::empty());
        assert(virtio@.queue_notify =~= Seq::empty());
        virtio
    }

    /// Installs `data` as the disk image.
    pub fn init(&mut self, data: Vec<u8>)
        ensures
            final(self)@ == (VirtioView { disk: data@, ..old(self)@ }),
    {
        self.disk_image = data;
    }

    /// Advances the clock by one tick, serving a request if one is due.
    pub fn tick(&mut self, dram: &mut Memory)
        ensures
            final(self)@ == old(self)@.after_tick(old(dram)@),
            final(dram)@ == old(self)@.memory_after_tick(old(dram)@),
    {
        let cycle: u64 = self.cycle.wrapping_add(1);
        if self.queue_notify.len() > 0 && cycle == self.queue_notify[0].wrapping_add(
            CONFIG_DMA_DELAY,
        ) {
            self.transfer(dram);
            self.interrupt_status = self.interrupt_status | VIRTIO_INTERRUPT_QUEUE;
            self.queue_notify.remove(0);
        }
        self.cycle = cycle;
    }

    pub fn is_irq(&mut self) -> (irq: bool)
        ensures
            final(self)@ == old(self)@,
            irq == old(self)@.irq(),
    {
        self.interrupt_status & 0x3 > 0
    }

    pub fn read(&mut self, addr: u64) -> (data: u32)
        ensures
            final(self)@ == old(self)@,
            data == old(self)@.read(addr),
    {
        if addr == VIRTIO_MAGIC_VALUE {
            VIRTIO_MAGIC
        } else if addr == VIRTIO_VERSION {
            VIRTIO_LEGACY_VERSION
        } else if addr == VIRTIO_DEVICE_ID {
            VIRTIO_BLOCK_DEVICE
        } else if addr == VIRTIO_VENDOR_ID {
            VIRTIO_VENDOR
        } else if addr == VIRTIO_DEVICE_FEATURES {
            self.device_features_sel
        } else if addr == VIRTIO_QUEUE_NUM_MAX {
            CONFIG_QUEUE_NUM_MAX
        } else if addr == VIRTIO_QUEUE_PFN {
            self.queue_pfn
        } else if addr == VIRTIO_INTERRUPT_STATUS {
            self.interrupt_status
        } else if addr == VIRTIO_DEVICE_STATUS {
            self.device_status
        } else if addr == VIRTIO_CONFIG_SPACE0 {
            self.config_space[0]
        } else if addr == VIRTIO_CONFIG_SPACE1 {
            self.config_space[1]
        } else {
            0
        }
    }

    pub fn write(&mut self, addr: u64, data: u32)
        ensures
            final(self)@ == old(self)@.written(addr, data),
    {
        if addr == VIRTIO_DEVICE_FEATURES_SEL {
            self.device_features_sel = data;
        } else if addr == VIRTIO_DRIVER_FEATURES {
            self.driver_features = data;
        } else if addr == VIRTIO_DRIVER_FEATURES_SEL {
            self.driver_features_sel = data;
        } else if addr == VIRTIO_GUEST_PAGE_SIZE {
            self.guest_page_size = data;
        } else if addr == VIRTIO_QUEUE_SEL {
            self.queue_sel = data;
        } else if addr == VIRTIO_QUEUE_NUM {
            self.queue_num = data;
        } else if addr == VIRTIO_QUEUE_ALIGIN {
            self.queue_align = data;
        } else if addr == VIRTIO_QUEUE_PFN {
            self.queue_pfn = data;
        } else if addr == VIRTIO_QUEUE_NOTIFY {
            self.queue_notify.push(self.cycle);
        } else if addr == VIRTIO_INTERRUPT_ACK {
            self.interrupt_status = self.interrupt_status & !(data & (VIRTIO_INTERRUPT_QUEUE
                | VIRTIO_INTERRUPT_CONFIGURATION));
        } else if addr == VIRTIO_DEVICE_STATUS {
            self.device_status = data;
        } else if addr == VIRTIO_CONFIG_SPACE0 {
            self.config_space[0] = data;
        } else if addr == VIRTIO_CONFIG_SPACE1 {
            self.config_space[1] = data;
        }
    }

    /// Serves the next request of the virtqueue in `dram`, if it is well-formed.
    pub fn transfer(&mut self, dram: &mut Memory)
        ensures
            final(self)@ == old(self)@.transferred(old(dram)@),
            final(dram)@ == old(self)@.transferred_memory(old(dram)@),
    {
        match self.get_request(dram) {
            None => {},
            Some(r) => {
                if r.to_memory {
                    self.dma_disk_to_memory(dram, r.data_addr, r.disk_addr, r.len);
                } else {
                    self.dma_memory_to_disk(dram, r.data_addr, r.disk_addr, r.len);
                }
                dram.write8(r.status_addr, VIRTIO_BLK_S_OK);
                dram.write32(r.used_entry, #[verifier::truncate] (r.head as u32));
                dram.write32(r.used_entry + 4, 0);
                dram.write16(r.used_idx, #[verifier::truncate] (r.next_idx as u16));
                self.last_available_idx = r.next_idx;
            },
        }
    }

    /// Where the virtqueue lies.
    pub fn get_virtqueue(&self) -> (vq: Option<Virtqueue>)
        ensures
            vq == self@.virtqueue(),
    {
        if self.queue_align == 0 {
            None
        } else {
            let queue_size: u64 = self.queue_num as u64;
            let align: u64 = self.queue_align as u64;
            let page_addr: u64 = (self.queue_pfn as u64).wrapping_mul(self.guest_page_size as u64);
            let table: u64 = page_addr.wrapping_sub(self.dram_base_addr);
            let available: u64 = table.wrapping_add(queue_size * 16);
            let end: u64 = available.wrapping_add(4 + queue_size * 2 + align - 1);
            assert(end % align <= end) by (nonlinear_arith)
                requires
                    align > 0,
            ;
            Some(
                Virtqueue {
                    descriptor_table_head: table,
                    available_ring_head: available,
                    used_ring_head: end - end % align,
                },
            )
        }
    }

    /// Reads the descriptor at index `prev` of the table at `table_head`.
    pub fn get_descriptor(&self, dram: &Memory, table_head: u64, prev: u64) -> (d: Option<
        Descriptor,
    >)
        ensures
            d == self@.descriptor(dram@, table_head, prev),
    {
        let queue_size: u64 = self.queue_num as u64;
        let size: usize = dram.size();
        if queue_size == 0 || size < 16 || prev > (size - 16) as u64 / DESCRIPTOR_SIZE
            || table_head > (size - 16) as u64 - DESCRIPTOR_SIZE * prev {
            return None;
        }
        let entity: u64 = table_head + DESCRIPTOR_SIZE * prev;
        let raw: u64 = dram.read64(entity);
        if raw < self.dram_base_addr {
            return None;
        }
        Some(
            Descriptor {
                addr: raw - self.dram_base_addr,
                len: dram.read32(entity + 8),
                flags: dram.read16(entity + 12),
                next: (dram.read16(entity + 14) as u64) % queue_size,
            },
        )
    }

    /// Reads the next request from the virtqueue in `dram` and checks its addresses.
    pub fn get_request(&self, dram: &Memory) -> (r: Option<Request>)
        ensures
            r == self@.request(dram@),
            r matches Some(q) ==> q.data_addr + q.len <= dram.mem.len() && q.disk_addr + q.len
                <= self.disk_image.len() && q.status_addr < dram.mem.len() && q.used_entry + 8
                <= dram.mem.len() && q.used_idx + 2 <= dram.mem.len(),
    {
        let queue_size: u64 = self.queue_num as u64;
        let last: u64 = self.last_available_idx;
        let size: u64 = dram.size() as u64;
        let disk_size: u64 = self.disk_image.len() as u64;
        let vq: Virtqueue = match self.get_virtqueue() {
            None => {
                return None;
            },
            Some(vq) => vq,
        };
        if queue_size == 0 || last >= queue_size {
            return None;
        }
        if size < 8 || vq.available_ring_head > size || 4 + last * 2 > size
            - vq.available_ring_head || size - vq.available_ring_head - (4 + last * 2) < 2 {
            return None;
        }
        if vq.used_ring_head > size || 4 + last * 8 > size - vq.used_ring_head || size
            - vq.used_ring_head - (4 + last * 8) < 8 {
            return None;
        }
        let slot: u64 = vq.available_ring_head + 4 + last * 2;
        let entry: u64 = vq.used_ring_head + 4 + last * 8;
        let head: u64 = (dram.read16(slot) as u64) % queue_size;
        let d0: Descriptor = match self.get_descriptor(dram, vq.descriptor_table_head, head) {
            None => {
                return None;
            },
            Some(d) => d,
        };
        if size < 16 || d0.addr > size - 16 {
            return None;
        }
        let sector: u64 = dram.read64(d0.addr + 8);
        let d1: Descriptor = match self.get_descriptor(dram, vq.descriptor_table_head, d0.next) {
            None => {
                return None;
            },
            Some(d) => d,
        };
        let d2: Descriptor = match self.get_descriptor(dram, vq.descriptor_table_head, d1.next) {
            None => {
                return None;
            },
            Some(d) => d,
        };
        let len: u64 = d1.len as u64;
        if sector > disk_size / CONFIG_DISK_SECTOR_SIZE || len > disk_size - sector
            * CONFIG_DISK_SECTOR_SIZE || d1.addr > size || len > size - d1.addr || d2.addr
            >= size {
            return None;
        }
        Some(
            Request {
                head,
                data_addr: d1.addr,
                len,
                disk_addr: sector * CONFIG_DISK_SECTOR_SIZE,
                to_memory: d1.flags & VRING_DESC_F_WRITE != 0,
                status_addr: d2.addr,
                used_entry: entry,
                used_idx: vq.used_ring_head + 2,
                next_idx: (last + 1) % queue_size,
            },
        )
    }

    /// Copies `len` bytes of the disk from `disk_addr` on into `dram` at `mem_addr`.
    pub fn dma_disk_to_memory(&self, dram: &mut Memory, mem_addr: u64, disk_addr: u64, len: u64)
        requires
            mem_addr + len <= old(dram).mem.len(),
            disk_addr + len <= self.disk_image.len(),
        ensures
            final(dram)@ == copy_bytes(
                old(dram)@,
                mem_addr as int,
                self@.disk,
                disk_addr as int,
                len as int,
            ),
    {
        let mut i: u64 = 0;
        assert(dram@ =~= copy_bytes(old(dram)@, mem_addr as int, self@.disk, disk_addr as int, 0));
        while i < len
            invariant
                i <= len,
                mem_addr + len <= dram.mem.len(),
                disk_addr + len <= self.disk_image.len(),
                dram@ == copy_bytes(
                    old(dram)@,
                    mem_addr as int,
                    self@.disk,
                    disk_addr as int,
                    i as int,
                ),
            decreases len - i,
        {
            let data: u8 = self.read_disk8(disk_addr + i);
            dram.write8(mem_addr + i, data);
            i += 1;
            assert(dram@ =~= copy_bytes(
                old(dram)@,
                mem_addr as int,
                self@.disk,
                disk_addr as int,
                i as int,
            ));
        }
    }

    /// Copies `len` bytes of `dram` from `mem_addr` on to the disk at `disk_addr`.
    pub fn dma_memory_to_disk(&mut self, dram: &Memory, mem_addr: u64, disk_addr: u64, len: u64)
        requires
            mem_addr + len <= dram.mem.len(),
            disk_addr + len <= old(self).disk_image.len(),
        ensures
            final(self)@ == (VirtioView {
                disk: copy_bytes(
                    old(self)@.disk,
                    disk_addr as int,
                    dram@,
                    mem_addr as int,
                    len as int,
                ),
                ..old(self)@
            }),
    {
        let mut i: u64 = 0;
        assert(self@.disk =~= copy_bytes(
            old(self)@.disk,
            disk_addr as int,
            dram@,
            mem_addr as int,
            0,
        ));
        while i < len
            invariant
                i <= len,
                mem_addr + len <= dram.mem.len(),
                disk_addr + len <= self.disk_image.len(),
                self@ == (VirtioView {
                    disk: copy_bytes(
                        old(self)@.disk,
                        disk_addr as int,
                        dram@,
                        mem_addr as int,
                        i as int,
                    ),
                    ..old(self)@
                }),
            decreases len - i,
        {
            let data: u8 = dram.read8(mem_addr + i);
            self.write_disk8(disk_addr + i, data);
            i += 1;
            assert(self@.disk =~= copy_bytes(
                old(self)@.disk,
                disk_addr as int,
                dram@,
                mem_addr as int,
                i as int,
            ));
        }
    }

    pub fn read_disk8(&self, addr: u64) -> (data: u8)
        requires
            addr < self.disk_image.len(),
        ensures
            data == self@.disk[addr as int],
    {
        self.disk_image[addr as usize]
    }

    pub fn write_disk8(&mut self, addr: u64, data: u8)
        requires
            addr < old(self).disk_image.len(),
        ensures
            final(self)@ == (VirtioView {
                disk: old(self)@.disk.update(addr as int, data),
                ..old(self)@
            }),
    {
        self.disk_image[addr as usize] = data;
    }
}

} // verus!
