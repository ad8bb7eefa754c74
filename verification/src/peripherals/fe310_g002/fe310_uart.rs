use vstd::prelude::*;

use crate::console::Console;

verus! {

pub const UART_TXEN: u32 = 0x1;
pub const UART_RXEN: u32 = 0x1;

pub const UART_TXWM: u32 = 0x1;
pub const UART_RXWM: u32 = 0x2;

/// The value of the receive data register while the receive FIFO is empty.
pub const UART_RX_EMPTY: u32 = 0x8000_0000;

/// The registers, FIFOs and clock of the FE310 UART.
pub struct Fe310UartView {
    pub txdata: u32,
    pub rxdata: u32,
    pub txctrl: u32,
    pub rxctrl: u32,
    pub ie: u32,
    pub ip: u32,
    pub div: u32,
    pub r_fifo: Seq<u8>,
    pub t_fifo: Seq<u8>,
    pub cycle: u64,
}

impl Fe310UartView {
    /// The state after reset: both directions enabled, both FIFOs empty.
    pub open spec fn reset() -> Fe310UartView {
        Fe310UartView {
            txdata: 0,
            rxdata: UART_RX_EMPTY,
            txctrl: 0x01,
            rxctrl: 0x01,
            ie: 0,
            ip: 0,
            div: 0,
            r_fifo: Seq::empty(),
            t_fifo: Seq::empty(),
            cycle: 0,
        }
    }

    /// The pending register after the watermark bit `bit` was brought up
    /// to date for a FIFO that holds `depth` bytes, under the control
    /// register `ctrl`. The FIFO is at its watermark when it is not empty
    /// and holds at least as many bytes as bits 18:16 of `ctrl` say; the bit
    /// is then set if its interrupt is enabled, and it is cleared when the
    /// FIFO is below the watermark.
    pub open spec fn watermark(self, bit: u32, depth: nat, ctrl: u32) -> u32 {
        if depth != 0 && depth >= ((ctrl >> 16) & 0x7) {
            if self.ie & bit > 0 {
                self.ip | bit
            } else {
                self.ip
            }
        } else {
            self.ip & !bit
        }
    }

    /// The state with the receive watermark bit brought up to date.
    pub open spec fn receive_status(self) -> Fe310UartView {
        Fe310UartView { ip: self.watermark(UART_RXWM, self.r_fifo.len(), self.rxctrl), ..self }
    }

    /// The state with the transmit watermark bit brought up to date.
    pub open spec fn transmit_status(self) -> Fe310UartView {
        Fe310UartView { ip: self.watermark(UART_TXWM, self.t_fifo.len(), self.txctrl), ..self }
    }

    /// Whether the next tick is one on which the receiver runs: every
    /// 65535th tick.
    pub open spec fn receive_slot(self) -> bool {
        self.cycle.wrapping_add(1) % 0xffff == 0
    }

    /// Whether the next tick asks the console for a character: on a
    /// receive slot, while the receiver is enabled.
    pub open spec fn polls_input(self) -> bool {
        self.receive_slot() && self.rxctrl & UART_RXEN > 0
    }

    /// Whether the next tick hands the head of the transmit FIFO to the
    /// console: every 15th tick, while the transmitter is enabled and the
    /// FIFO is not empty.
    pub open spec fn sends_output(self) -> bool {
        self.cycle.wrapping_add(1) % 0xf == 0 && self.txctrl & UART_TXEN > 0 && self.t_fifo.len()
            > 0
    }

    /// The state after one tick in which the console answered `input` where
    /// it was asked (0 for no character).
    pub open spec fn after_tick(self, input: u8) -> Fe310UartView {
        let received = if self.receive_slot() {
            Fe310UartView {
                r_fifo: if self.polls_input() && input != 0 {
                    self.r_fifo.push(input)
                } else {
                    self.r_fifo
                },
                ..self
            }.receive_status()
        } else {
            self
        };
        let sent = if self.sends_output() {
            Fe310UartView { t_fifo: received.t_fifo.remove(0), ..received }.transmit_status()
        } else {
            received
        };
        Fe310UartView { cycle: self.cycle.wrapping_add(1), ..sent }
    }

    /// The state after a read of the register at offset `addr & 0xff`, and
    /// the value read; 0 at an offset that holds no register. A read of the
    /// receive data register takes the head of the receive FIFO, or gives
    /// the empty flag.
    pub open spec fn read(self, addr: u64) -> (Fe310UartView, u32) {
        let reg = addr & 0xff;
        if reg == 0x00 {
            (self, self.txdata)
        } else if reg == 0x04 {
            let taken = if self.r_fifo.len() == 0 {
                Fe310UartView { rxdata: UART_RX_EMPTY, ..self }
            } else {
                Fe310UartView { rxdata: self.r_fifo[0] as u32, r_fifo: self.r_fifo.remove(0), ..self }
            };
            (taken.receive_status(), taken.rxdata)
        } else if reg == 0x08 {
            (self, self.txctrl)
        } else if reg == 0x0c {
            (self, self.rxctrl)
        } else if reg == 0x10 {
            (self, self.ie)
        } else if reg == 0x14 {
            (self, self.ip)
        } else if reg == 0x18 {
            (self, self.div)
        } else {
            (self, 0)
        }
    }

    /// The state after `data` was written at offset `addr & 0xff`. A write
    /// to the transmit data register appends the low byte to the transmit
    /// FIFO; the other registers keep their defined bits; a write to an
    /// offset that holds no writable register changes nothing.
    pub open spec fn written(self, addr: u64, data: u32) -> Fe310UartView {
        let reg = addr & 0xff;
        if reg == 0x00 {
            Fe310UartView {
                txdata: data & 0xff,
                t_fifo: self.t_fifo.push((data & 0xff) as u8),
                ..self
            }
        } else if reg == 0x08 {
            Fe310UartView { txctrl: data & 0x7_0003, ..self }
        } else if reg == 0x0c {
            Fe310UartView { rxctrl: data & 0x7_0001, ..self }
        } else if reg == 0x10 {
            Fe310UartView { ie: data & 0x3, ..self }
        } else if reg == 0x18 {
            Fe310UartView { div: data & 0xffff, ..self }
        } else {
            self
        }
    }

    /// Whether an interrupt is requested: a watermark bit is pending and enabled.
    pub open spec fn irq(self) -> bool {
        (self.ie & UART_RXWM > 0 && self.ip & UART_RXWM > 0) || (self.ie & UART_TXWM > 0 && self.ip
            & UART_TXWM > 0)
    }
}

/// The FE310 UART in front of a console.
pub struct Fe310Uart {
    /// Transmit data register.
    pub txdata: u32,
    /// Receive data register.
    pub rxdata: u32,
    /// Transmit control register.
    pub txctrl: u32,
    /// Receive control register.
    pub rxctrl: u32,
    /// Interrupt enable register.
    pub ie: u32,
    /// Interrupt pending register.
    pub ip: u32,
    /// Baud rate divisor.
    pub div: u32,
    /// Receive FIFO.
    pub r_fifo: Vec<u8>,
    /// Transmit FIFO.
    pub t_fifo: Vec<u8>,
    /// The terminal behind the port.
    pub console: Box<dyn Console>,
    /// The number of ticks so far.
    pub cycle: u64,
}

impl View for Fe310Uart {
    type V = Fe310UartView;

    open spec fn view(&self) -> Fe310UartView {
        Fe310UartView {
            txdata: self.txdata,
            rxdata: self.rxdata,
            txctrl: self.txctrl,
            rxctrl: self.rxctrl,
            ie: self.ie,
            ip: self.ip,
            div: self.div,
            r_fifo: self.r_fifo@,
            t_fifo: self.t_fifo@,
            cycle: self.cycle,
        }
    }
}

impl Fe310Uart {
    pub fn new(console_: Box<dyn Console>) -> (uart: Self)
        ensures
            uart@ == Fe310UartView::reset(),
    {
        Fe310Uart {
            txdata: 0,
            rxdata: UART_RX_EMPTY,
            txctrl: 0x01,
            rxctrl: 0x01,
            ie: 0,
            ip: 0,
            div: 0,
            r_fifo: Vec::new(),
            t_fifo: Vec::new(),
            console: console_,
            cycle: 0,
        }
    }

    /// The console behind the port, to read from it and to write to it; the
    /// registers and the FIFOs stay as they are.
    pub fn get_console(&mut self) -> (console: &mut Box<dyn Console>)
        ensures
            *console == old(self).console,
            final(self).console == *final(console),
            final(self)@ == old(self)@,
    {
        &mut self.console
    }

    /// Advances the clock by one tick, polling the console for input and
    /// handing it output where the state asks for it.
    pub fn tick(&mut self)
        ensures
            exists|input: u8| final(self)@ == old(self)@.after_tick(input),
            !old(self)@.polls_input() ==> final(self)@ == old(self)@.after_tick(0),
    {
        let cycle: u64 = self.cycle.wrapping_add(1);
        let mut input: u8 = 0;
        let sends: bool = cycle % 0xf == 0 && (self.txctrl & UART_TXEN > 0) && self.t_fifo.len()
            > 0;
        if cycle % 0xffff == 0 {
            if self.rxctrl & UART_RXEN > 0 {
                input = self.console.getchar();
                if input != 0 {
                    self.r_fifo.push(input);
                }
            }
            self.update_recieve_interrupt_status();
        }
        if sends {
            self.console.putchar(self.t_fifo[0]);
            self.t_fifo.remove(0);
            self.update_transmit_interrupt_status();
        }
        self.cycle = cycle;
        assert(self@ == old(self)@.after_tick(input));
    }

    pub fn read(&mut self, addr: u64) -> (data: u32)
        ensures
            (final(self)@, data) == old(self)@.read(addr),
    {
        let reg: u64 = addr & 0xff;
        if reg == 0x00 {
            self.txdata
        } else if reg == 0x04 {
            if self.r_fifo.len() == 0 {
                self.rxdata = UART_RX_EMPTY;
            } else {
                self.rxdata = self.r_fifo[0] as u32;
                self.r_fifo.remove(0);
            }
            self.update_recieve_interrupt_status();
            self.rxdata
        } else if reg == 0x08 {
            self.txctrl
        } else if reg == 0x0c {
            self.rxctrl
        } else if reg == 0x10 {
            self.ie
        } else if reg == 0x14 {
            self.ip
        } else if reg == 0x18 {
            self.div
        } else {
            0
        }
    }

    pub fn write(&mut self, addr: u64, data: u32)
        ensures
            final(self)@ == old(self)@.written(addr, data),
    {
        let reg: u64 = addr & 0xff;
        if reg == 0x00 {
            let push_data: u8 = (data & 0xff) as u8;
            self.t_fifo.push(push_data);
            self.txdata = data & 0xff;
        } else if reg == 0x08 {
            self.txctrl = data & 0x7_0003;
        } else if reg == 0x0c {
            self.rxctrl = data & 0x7_0001;
        } else if reg == 0x10 {
            self.ie = data & 0x3;
        } else if reg == 0x18 {
            self.div = data & 0xffff;
        }
    }

    pub fn is_irq(&mut self) -> (irq: bool)
        ensures
            final(self)@ == old(self)@,
            irq == old(self)@.irq(),
    {
        (self.ie & UART_RXWM > 0 && self.ip & UART_RXWM > 0) || (self.ie & UART_TXWM > 0 && self.ip
            & UART_TXWM > 0)
    }

    pub fn update_recieve_interrupt_status(&mut self)
        ensures
            final(self)@ == old(self)@.receive_status(),
    {
        if self.r_fifo.len() != 0 && self.r_fifo.len() >= ((self.rxctrl >> 16) & 0x7) as usize {
            if (self.ie & UART_RXWM) > 0 {
                self.ip = self.ip | UART_RXWM;
            }
        } else {
            self.ip = self.ip & !UART_RXWM;
        }
    }

    pub fn update_transmit_interrupt_status(&mut self)
        ensures
            final(self)@ == old(self)@.transmit_status(),
    {
        if self.t_fifo.len() != 0 && self.t_fifo.len() >= ((self.txctrl >> 16) & 0x7) as usize {
            if (self.ie & UART_TXWM) > 0 {
                self.ip = self.ip | UART_TXWM;
            }
        } else {
            self.ip = self.ip & !UART_TXWM;
        }
    }
}

} // verus!
