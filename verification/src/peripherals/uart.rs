use vstd::prelude::*;

use crate::console::Console;

verus! {

pub const IER_DATA_READY: u8 = 0x01;
pub const IER_THR_EMPTY: u8 = 0x02;

pub const ISR_IDENTIFICATION_CODE_DATA_READY: u8 = 0x4;
pub const ISR_IDENTIFICATION_CODE_THR_EMPTY: u8 = 0x2;
pub const ISR_IDLE: u8 = 0xe;

pub const LCR_DIVISOR_LATCH_ENABLE: u8 = 0x80;

pub const LSR_DATA_READY: u8 = 0x01;
pub const LSR_THR_EMPTY: u8 = 0x20;

/// The registers of a 16550a UART and its clock.
#[derive(Clone, Copy, Debug, PartialEq, Eq, Structural)]
pub struct UartState {
    /// Receive hold register; 0 when empty.
    pub rhr: u8,
    /// Transmit hold register; 0 when empty.
    pub thr: u8,
    /// Interrupt enable register.
    pub ier: u8,
    /// Interrupt status register.
    pub isr: u8,
    /// FIFO control register.
    pub fcr: u8,
    /// Line control register.
    pub lcr: u8,
    /// Modem control register.
    pub mcr: u8,
    /// Line status register.
    pub lsr: u8,
    /// Modem status register.
    pub msr: u8,
    /// Scratchpad register.
    pub spr: u8,
    /// The number of ticks so far.
    pub cycle: u64,
}

impl UartState {

    /// The state after reset: nothing received, the transmitter empty.
    pub open spec fn spec_reset() -> UartState {
        UartState {
            rhr: 0,
            thr: 0,
            ier: 0,
            isr: ISR_IDLE,
            fcr: 0,
            lcr: 0,
            mcr: 0,
            lsr: LSR_THR_EMPTY,
            msr: 0,
            spr: 0,
            cycle: 0,
        }
    }

    #[verifier::when_used_as_spec(spec_reset)]
    pub fn reset() -> (s: UartState)
        ensures
            s == Self::spec_reset(),
    {
        UartState {
            rhr: 0,
            thr: 0,
            ier: 0,
            isr: ISR_IDLE,
            fcr: 0,
            lcr: 0,
            mcr: 0,
            lsr: LSR_THR_EMPTY,
            msr: 0,
            spr: 0,
            cycle: 0,
        }
    }

    /// The state after a read of the register at offset `addr & 7`, and the
    /// value read. Reading the receive hold register empties it and clears the
    /// data-ready bit; the interrupt enable register reads as 0 while the
    /// divisor latch is enabled.
    pub open spec fn spec_read(self, addr: u64) -> (UartState, u8) {
        let reg: u64 = addr & 0x7;
        if reg == 0 {
            (UartState { rhr: 0, lsr: self.lsr & !LSR_DATA_READY, ..self }, self.rhr)
        } else if reg == 1 {
            if self.lcr & LCR_DIVISOR_LATCH_ENABLE == 0 {
                (self, self.ier)
            } else {
                (self, 0)
            }
        } else if reg == 2 {
            (self, self.isr)
        } else if reg == 3 {
            (self, self.lcr)
        } else if reg == 4 {
            (self, self.mcr)
        } else if reg == 5 {
            (self, self.lsr)
        } else if reg == 6 {
            (self, self.msr)
        } else {
            (self, self.spr)
        }
    }

    #[verifier::when_used_as_spec(spec_read)]
    pub fn read(self, addr: u64) -> (r: (UartState, u8))
        ensures
            r == self.spec_read(addr),
    {
        let reg: u64 = addr & 0x7;
        if reg == 0 {
            (UartState { rhr: 0, lsr: self.lsr & !LSR_DATA_READY, ..self }, self.rhr)
        } else if reg == 1 {
            if self.lcr & LCR_DIVISOR_LATCH_ENABLE == 0 {
                (self, self.ier)
            } else {
                (self, 0)
            }
        } else if reg == 2 {
            (self, self.isr)
        } else if reg == 3 {
            (self, self.lcr)
        } else if reg == 4 {
            (self, self.mcr)
        } else if reg == 5 {
            (self, self.lsr)
        } else if reg == 6 {
            (self, self.msr)
        } else {
            (self, self.spr)
        }
    }

    /// The state after `data` was written to the register at offset `addr & 7`.
    /// The transmit hold and interrupt enable registers are written only while
    /// the divisor latch is disabled; the line and modem status registers are
    /// read-only.
    pub open spec fn spec_write(self, addr: u64, data: u8) -> UartState {
        let reg: u64 = addr & 0x7;
        if reg == 0 {
            if self.lcr & LCR_DIVISOR_LATCH_ENABLE == 0 {
                UartState { thr: data, lsr: self.lsr & !LSR_THR_EMPTY, ..self }
            } else {
                self
            }
        } else if reg == 1 {
            if self.lcr & LCR_DIVISOR_LATCH_ENABLE == 0 {
                UartState { ier: data, ..self }
            } else {
                self
            }
        } else if reg == 2 {
            UartState { fcr: data, ..self }
        } else if reg == 3 {
            UartState { lcr: data, ..self }
        } else if reg == 4 {
            UartState { mcr: data, ..self }
        } else if reg == 7 {
            UartState { spr: data, ..self }
        } else {
            self
        }
    }

    #[verifier::when_used_as_spec(spec_write)]
    pub fn write(self, addr: u64, data: u8) -> (s: UartState)
        ensures
            s == self.spec_write(addr, data),
    {
        let reg: u64 = addr & 0x7;
        if reg == 0 {
            if self.lcr & LCR_DIVISOR_LATCH_ENABLE == 0 {
                UartState { thr: data, lsr: self.lsr & !LSR_THR_EMPTY, ..self }
            } else {
                self
            }
        } else if reg == 1 {
            if self.lcr & LCR_DIVISOR_LATCH_ENABLE == 0 {
                UartState { ier: data, ..self }
            } else {
                self
            }
        } else if reg == 2 {
            UartState { fcr: data, ..self }
        } else if reg == 3 {
            UartState { lcr: data, ..self }
        } else if reg == 4 {
            UartState { mcr: data, ..self }
        } else if reg == 7 {
            UartState { spr: data, ..self }
        } else {
            self
        }
    }

    /// Whether the next tick asks the console for a character: every 65536th
    /// tick, while the receive hold register is empty.
    pub open spec fn spec_polls_input(self) -> bool {
        self.cycle.wrapping_add(1) & 0xffff == 0 && self.rhr == 0
    }

    #[verifier::when_used_as_spec(spec_polls_input)]
    pub fn polls_input(self) -> (b: bool)
        ensures
            b == self.spec_polls_input(),
    {
        self.cycle.wrapping_add(1) & 0xffff == 0 && self.rhr == 0
    }

    /// Whether the next tick hands the transmit hold register to the console:
    /// every 16th tick, while the register is full.
    pub open spec fn spec_sends_output(self) -> bool {
        self.cycle.wrapping_add(1) & 0xf == 0 && self.thr != 0
    }

    #[verifier::when_used_as_spec(spec_sends_output)]
    pub fn sends_output(self) -> (b: bool)
        ensures
            b == self.spec_sends_output(),
    {
        self.cycle.wrapping_add(1) & 0xf == 0 && self.thr != 0
    }

    /// The state after one tick in which the console answered `input` where it
    /// was asked (0 for no character). A character received fills the receive
    /// hold register and sets the data-ready bit; a character sent empties the
    /// transmit hold register and sets the transmitter-empty bit.
    pub open spec fn spec_after_tick(self, input: u8) -> UartState {
        let received: UartState = if self.polls_input() && input != 0 {
            UartState { rhr: input, lsr: self.lsr | LSR_DATA_READY, ..self }
        } else {
            self
        };
        let sent: UartState = if self.sends_output() {
            UartState { thr: 0, lsr: received.lsr | LSR_THR_EMPTY, ..received }
        } else {
            received
        };
        UartState { cycle: self.cycle.wrapping_add(1), ..sent }
    }

    #[verifier::when_used_as_spec(spec_after_tick)]
    pub fn after_tick(self, input: u8) -> (s: UartState)
        ensures
            s == self.spec_after_tick(input),
    {
        let received: UartState = if self.polls_input() && input != 0 {
            UartState { rhr: input, lsr: self.lsr | LSR_DATA_READY, ..self }
        } else {
            self
        };
        let sent: UartState = if self.sends_output() {
            UartState { thr: 0, lsr: received.lsr | LSR_THR_EMPTY, ..received }
        } else {
            received
        };
        UartState { cycle: self.cycle.wrapping_add(1), ..sent }
    }

    /// Whether an interrupt is requested, and the state with the interrupt
    /// status register naming its source. Received data comes before an empty
    /// transmitter; each counts only while enabled.
    pub open spec fn spec_irq_check(self) -> (UartState, bool) {
        if (self.ier & IER_DATA_READY) != 0 && self.rhr != 0 {
            (UartState { isr: ISR_IDENTIFICATION_CODE_DATA_READY, ..self }, true)
        } else if (self.ier & IER_THR_EMPTY) != 0 && self.thr == 0 {
            (UartState { isr: ISR_IDENTIFICATION_CODE_THR_EMPTY, ..self }, true)
        } else {
            (UartState { isr: ISR_IDLE, ..self }, false)
        }
    }

    #[verifier::when_used_as_spec(spec_irq_check)]
    pub fn irq_check(self) -> (r: (UartState, bool))
        ensures
            r == self.spec_irq_check(),
    {
        if (self.ier & IER_DATA_READY) != 0 && self.rhr != 0 {
            (UartState { isr: ISR_IDENTIFICATION_CODE_DATA_READY, ..self }, true)
        } else if (self.ier & IER_THR_EMPTY) != 0 && self.thr == 0 {
            (UartState { isr: ISR_IDENTIFICATION_CODE_THR_EMPTY, ..self }, true)
        } else {
            (UartState { isr: ISR_IDLE, ..self }, false)
        }
    }

}

/// A 16550a UART in front of a console.
pub struct Uart {
    pub state: UartState,
    pub console: Box<dyn Console>,
}

impl View for Uart {
    type V = UartState;

    open spec fn view(&self) -> UartState {
        self.state
    }
}

impl Uart {
    pub fn new(console_: Box<dyn Console>) -> (uart: Self)
        ensures
            uart@ == UartState::reset(),
    {
        Uart { state: UartState::reset(), console: console_ }
    }

    /// The console behind the port, to read from it and to write to it; the
    /// registers stay as they are.
    pub fn get_console(&mut self) -> (console: &mut Box<dyn Console>)
        ensures
            *console == old(self).console,
            final(self).console == *final(console),
            final(self).state == old(self).state,
    {
        &mut self.console
    }

    /// Advances the clock by one tick, polling the console for input and
    /// handing it output where the state asks for it.
    pub fn tick(&mut self)
        ensures
            exists|input: u8| final(self)@ == old(self)@.after_tick(input),
            !old(self)@.polls_input() ==> final(self)@ == old(self)@.after_tick(0),
    {
        let input: u8 = if self.state.polls_input() {
            self.console.getchar()
        } else {
            0
        };
        if self.state.sends_output() {
            self.console.putchar(self.state.thr);
        }
        self.state = self.state.after_tick(input);
        assert(self@ == old(self)@.after_tick(input));
    }

    pub fn read(&mut self, addr: u64) -> (data: u8)
        ensures
            (final(self)@, data) == old(self)@.read(addr),
    {
        let (state, data) = self.state.read(addr);
        self.state = state;
        data
    }

    pub fn write(&mut self, addr: u64, data: u8)
        ensures
            final(self)@ == old(self)@.write(addr, data),
    {
        self.state = self.state.write(addr, data);
    }

    pub fn is_irq(&mut self) -> (irq: bool)
        ensures
            (final(self)@, irq) == old(self)@.irq_check(),
    {
        let (state, irq) = self.state.irq_check();
        self.state = state;
        irq
    }
}

} // verus!
