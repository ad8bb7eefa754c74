use vstd::prelude::*;

verus! {

/// Offset of the software interrupt register of hart 0.
pub const CLINT_MSIP: u64 = 0x0000;

/// Offset of the timer compare register of hart 0.
pub const CLINT_TIMER_COMPARE: u64 = 0x4000;

/// Offset of the upper half of the timer compare register of hart 0.
pub const CLINT_TIMER_COMPARE_HIGH: u64 = 0x4004;

/// Offset of the timer register.
pub const CLINT_MTIME: u64 = 0xbff8;

/// Offset of the upper half of the timer register.
pub const CLINT_MTIME_HIGH: u64 = 0xbffc;

/// The core-local interruptor of a machine with one hart: the software
/// interrupt register, the timer and its compare register.
#[derive(Clone, Copy, Debug, PartialEq, Eq, Structural)]
pub struct Clint {
    /// Software interrupt register; bit 0 requests the interrupt.
    pub msip: u32,
    /// The timer interrupt is pending while `mtime` is not below this value.
    pub timer_compare: u64,
    /// The timer, advanced by one on every tick.
    pub mtime: u64,
}

impl Clint {
    /// No software interrupt requested, the timer at zero and the compare
    /// register at its greatest value, so that nothing is pending.
    pub open spec fn spec_new() -> Clint {
        Clint { msip: 0, timer_compare: 0xffff_ffff_ffff_ffff, mtime: 0 }
    }

    #[verifier::when_used_as_spec(spec_new)]
    pub fn new() -> (clint: Clint)
        ensures
            clint == Self::spec_new(),
    {
        Clint { msip: 0, timer_compare: 0xffff_ffff_ffff_ffff, mtime: 0 }
    }

    /// The state after one tick: the timer advanced by one, wrapping at 2^64.
    pub open spec fn spec_ticked(self) -> Clint {
        Clint { mtime: self.mtime.wrapping_add(1), ..self }
    }

    #[verifier::when_used_as_spec(spec_ticked)]
    pub fn ticked(self) -> (clint: Clint)
        ensures
            clint == self.spec_ticked(),
    {
        Clint { mtime: self.mtime.wrapping_add(1), ..self }
    }

    /// Whether the software interrupt of hart `core` is pending: for hart 0,
    /// while its software interrupt register is not zero.
    pub open spec fn spec_software_pending(&self, core: usize) -> bool {
        core == 0 && self.msip != 0
    }

    #[verifier::when_used_as_spec(spec_software_pending)]
    pub fn software_pending(&self, core: usize) -> (pending: bool)
        ensures
            pending == self.spec_software_pending(core),
    {
        core == 0 && self.msip != 0
    }

    /// Whether the timer interrupt of hart `core` is pending: for hart 0, while
    /// the timer has reached the compare register.
    pub open spec fn spec_timer_pending(&self, core: usize) -> bool {
        core == 0 && self.mtime >= self.timer_compare
    }

    #[verifier::when_used_as_spec(spec_timer_pending)]
    pub fn timer_pending(&self, core: usize) -> (pending: bool)
        ensures
            pending == self.spec_timer_pending(core),
    {
        core == 0 && self.mtime >= self.timer_compare
    }

    /// The 32-bit register at offset `addr & 0xffff`: the 64-bit registers read
    /// as two halves, the low one first; 0 at an offset that holds no register.
    pub open spec fn spec_read(&self, addr: u64) -> u32 {
        let reg: u64 = addr & 0xffff;
        if reg == CLINT_MSIP {
            self.msip
        } else if reg == CLINT_TIMER_COMPARE {
            self.timer_compare as u32
        } else if reg == CLINT_TIMER_COMPARE_HIGH {
            (self.timer_compare >> 32) as u32
        } else if reg == CLINT_MTIME {
            self.mtime as u32
        } else if reg == CLINT_MTIME_HIGH {
            (self.mtime >> 32) as u32
        } else {
            0
        }
    }

    #[verifier::when_used_as_spec(spec_read)]
    pub fn read(&self, addr: u64) -> (data: u32)
        ensures
            data == self.spec_read(addr),
    {
        let reg: u64 = addr & 0xffff;
        if reg == CLINT_MSIP {
            self.msip
        } else if reg == CLINT_TIMER_COMPARE {
            self.timer_compare as u32
        } else if reg == CLINT_TIMER_COMPARE_HIGH {
            (self.timer_compare >> 32) as u32
        } else if reg == CLINT_MTIME {
            self.mtime as u32
        } else if reg == CLINT_MTIME_HIGH {
            (self.mtime >> 32) as u32
        } else {
            0
        }
    }

    /// The state after `data` was written at offset `addr & 0xffff`. Only bit 0
    /// of the software interrupt register is kept; a half of a 64-bit register
    /// is replaced and the other half stays; a write to an offset that holds no
    /// register changes nothing.
    pub open spec fn spec_written(self, addr: u64, data: u32) -> Clint {
        let reg: u64 = addr & 0xffff;
        if reg == CLINT_MSIP {
            Clint { msip: data & 0x1, ..self }
        } else if reg == CLINT_TIMER_COMPARE {
            Clint { timer_compare: (self.timer_compare & 0xffff_ffff_0000_0000) | (data as u64), ..self }
        } else if reg == CLINT_TIMER_COMPARE_HIGH {
            Clint { timer_compare: (self.timer_compare & 0x0000_0000_ffff_ffff) | ((data as u64) << 32), ..self }
        } else if reg == CLINT_MTIME {
            Clint { mtime: (self.mtime & 0xffff_ffff_0000_0000) | (data as u64), ..self }
        } else if reg == CLINT_MTIME_HIGH {
            Clint { mtime: (self.mtime & 0x0000_0000_ffff_ffff) | ((data as u64) << 32), ..self }
        } else {
            self
        }
    }

    #[verifier::when_used_as_spec(spec_written)]
    pub fn written(self, addr: u64, data: u32) -> (clint: Clint)
        ensures
            clint == self.spec_written(addr, data),
    {
        let reg: u64 = addr & 0xffff;
        if reg == CLINT_MSIP {
            Clint { msip: data & 0x1, ..self }
        } else if reg == CLINT_TIMER_COMPARE {
            Clint { timer_compare: (self.timer_compare & 0xffff_ffff_0000_0000) | (data as u64), ..self }
        } else if reg == CLINT_TIMER_COMPARE_HIGH {
            Clint { timer_compare: (self.timer_compare & 0x0000_0000_ffff_ffff) | ((data as u64) << 32), ..self }
        } else if reg == CLINT_MTIME {
            Clint { mtime: (self.mtime & 0xffff_ffff_0000_0000) | (data as u64), ..self }
        } else if reg == CLINT_MTIME_HIGH {
            Clint { mtime: (self.mtime & 0x0000_0000_ffff_ffff) | ((data as u64) << 32), ..self }
        } else {
            self
        }
    }

    pub fn tick(&mut self)
        ensures
            *final(self) == old(self).ticked(),
    {
        *self = self.ticked();
    }

    pub fn is_pending_software_interrupt(&mut self, core: usize) -> (pending: bool)
        ensures
            *final(self) == *old(self),
            pending == old(self).software_pending(core),
    {
        self.software_pending(core)
    }

    pub fn is_pending_timer_interrupt(&mut self, core: usize) -> (pending: bool)
        ensures
            *final(self) == *old(self),
            pending == old(self).timer_pending(core),
    {
        self.timer_pending(core)
    }

    pub fn write(&mut self, addr: u64, data: u32)
        ensures
            *final(self) == old(self).written(addr, data),
    {
        *self = self.written(addr, data);
    }
}

/// What was written to the two halves of the compare register is what the
/// register then holds.
pub proof fn lemma_clint_compare_halves(clint: Clint, low: u32, high: u32)
    ensures
        clint.written(CLINT_TIMER_COMPARE, low).written(CLINT_TIMER_COMPARE_HIGH, high).timer_compare == (low as u64)
            | ((high as u64) << 32),
        clint.written(CLINT_TIMER_COMPARE, low).read(CLINT_TIMER_COMPARE) == low,
        clint.written(CLINT_TIMER_COMPARE_HIGH, high).read(CLINT_TIMER_COMPARE_HIGH) == high,
{
    let c: u64 = clint.timer_compare;
    assert((((c & 0xffff_ffff_0000_0000) | (low as u64)) & 0x0000_0000_ffff_ffff) | ((high as u64)
        << 32) == (low as u64) | ((high as u64) << 32)
        && ((c & 0xffff_ffff_0000_0000) | (low as u64)) as u32 == low
        && (((c & 0x0000_0000_ffff_ffff) | ((high as u64) << 32)) >> 32) as u32 == high)
        by (bit_vector);
    assert(0x4000u64 & 0xffff == 0x4000 && 0x4004u64 & 0xffff == 0x4004) by (bit_vector);
}

} // verus!
