use vstd::prelude::*;

verus! {

/// The registers of the FE310 GPIO block.
#[derive(Clone, Copy, Debug, PartialEq, Eq, Structural)]
pub struct Gpio {
    /// Pin value.
    pub input_val: u32,
    /// Pin input enable.
    pub input_en: u32,
    /// Pin output enable.
    pub output_en: u32,
    /// Output value.
    pub output_val: u32,
    /// Internal pull-up enable.
    pub pue: u32,
    /// Pin drive strength.
    pub ds: u32,
    /// Rise interrupt enable.
    pub rise_ie: u32,
    /// Rise interrupt pending.
    pub rise_ip: u32,
    /// Fall interrupt enable.
    pub fall_ie: u32,
    /// Fall interrupt pending.
    pub fall_ip: u32,
    /// High interrupt enable.
    pub high_ie: u32,
    /// High interrupt pending.
    pub high_ip: u32,
    /// Low interrupt enable.
    pub low_ie: u32,
    /// Low interrupt pending.
    pub low_ip: u32,
    /// I/O function enable.
    pub iof_en: u32,
    /// I/O function select.
    pub iof_sel: u32,
    /// Output XOR (invert).
    pub out_xor: u32,
}

impl Gpio {
    /// All registers zero.
    pub open spec fn spec_new() -> Gpio {
        Gpio {
            input_val: 0,
            input_en: 0,
            output_en: 0,
            output_val: 0,
            pue: 0,
            ds: 0,
            rise_ie: 0,
            rise_ip: 0,
            fall_ie: 0,
            fall_ip: 0,
            high_ie: 0,
            high_ip: 0,
            low_ie: 0,
            low_ip: 0,
            iof_en: 0,
            iof_sel: 0,
            out_xor: 0,
        }
    }

    #[verifier::when_used_as_spec(spec_new)]
    pub fn new() -> (gpio: Gpio)
        ensures
            gpio == Self::spec_new(),
    {
        Gpio {
            input_val: 0,
            input_en: 0,
            output_en: 0,
            output_val: 0,
            pue: 0,
            ds: 0,
            rise_ie: 0,
            rise_ip: 0,
            fall_ie: 0,
            fall_ip: 0,
            high_ie: 0,
            high_ip: 0,
            low_ie: 0,
            low_ip: 0,
            iof_en: 0,
            iof_sel: 0,
            out_xor: 0,
        }
    }

    /// Whether any pin has an interrupt pending.
    pub open spec fn spec_is_irq(&self) -> bool {
        self.rise_ip != 0 || self.fall_ip != 0 || self.high_ip != 0 || self.low_ip != 0
    }

    #[verifier::when_used_as_spec(spec_is_irq)]
    pub fn is_irq(&self) -> (irq: bool)
        ensures
            irq == self.spec_is_irq(),
    {
        self.rise_ip != 0 || self.fall_ip != 0 || self.high_ip != 0 || self.low_ip != 0
    }

    /// The register at offset `addr & 0xff`; 0 at an offset that holds none.
    pub open spec fn spec_read(&self, addr: u64) -> u32 {
        let reg: u64 = addr & 0xff;
        if reg == 0x00 {
            self.input_val
        } else if reg == 0x04 {
            self.input_en
        } else if reg == 0x08 {
            self.output_en
        } else if reg == 0x0c {
            self.output_val
        } else if reg == 0x10 {
            self.pue
        } else if reg == 0x14 {
            self.ds
        } else if reg == 0x18 {
            self.rise_ie
        } else if reg == 0x1c {
            self.rise_ip
        } else if reg == 0x20 {
            self.fall_ie
        } else if reg == 0x24 {
            self.fall_ip
        } else if reg == 0x28 {
            self.high_ie
        } else if reg == 0x2c {
            self.high_ip
        } else if reg == 0x30 {
            self.low_ie
        } else if reg == 0x34 {
            self.low_ip
        } else if reg == 0x38 {
            self.iof_en
        } else if reg == 0x3c {
            self.iof_sel
        } else if reg == 0x40 {
            self.out_xor
        } else {
            0
        }
    }

    #[verifier::when_used_as_spec(spec_read)]
    pub fn read(&self, addr: u64) -> (data: u32)
        ensures
            data == self.spec_read(addr),
    {
        let reg: u64 = addr & 0xff;
        if reg == 0x00 {
            self.input_val
        } else if reg == 0x04 {
            self.input_en
        } else if reg == 0x08 {
            self.output_en
        } else if reg == 0x0c {
            self.output_val
        } else if reg == 0x10 {
            self.pue
        } else if reg == 0x14 {
            self.ds
        } else if reg == 0x18 {
            self.rise_ie
        } else if reg == 0x1c {
            self.rise_ip
        } else if reg == 0x20 {
            self.fall_ie
        } else if reg == 0x24 {
            self.fall_ip
        } else if reg == 0x28 {
            self.high_ie
        } else if reg == 0x2c {
            self.high_ip
        } else if reg == 0x30 {
            self.low_ie
        } else if reg == 0x34 {
            self.low_ip
        } else if reg == 0x38 {
            self.iof_en
        } else if reg == 0x3c {
            self.iof_sel
        } else if reg == 0x40 {
            self.out_xor
        } else {
            0
        }
    }

    /// The registers after `data` was written at offset `addr & 0xff`. A write
    /// to a pending register clears the bits that are set in `data`; a write to
    /// an offset that holds no register changes nothing.
    pub open spec fn spec_written(self, addr: u64, data: u32) -> Gpio {
        let reg: u64 = addr & 0xff;
        if reg == 0x00 {
            Gpio { input_val: data, ..self }
        } else if reg == 0x04 {
            Gpio { input_en: data, ..self }
        } else if reg == 0x08 {
            Gpio { output_en: data, ..self }
        } else if reg == 0x0c {
            Gpio { output_val: data, ..self }
        } else if reg == 0x10 {
            Gpio { pue: data, ..self }
        } else if reg == 0x14 {
            Gpio { ds: data, ..self }
        } else if reg == 0x18 {
            Gpio { rise_ie: data, ..self }
        } else if reg == 0x1c {
            Gpio { rise_ip: self.rise_ip & !data, ..self }
        } else if reg == 0x20 {
            Gpio { fall_ie: data, ..self }
        } else if reg == 0x24 {
            Gpio { fall_ip: self.fall_ip & !data, ..self }
        } else if reg == 0x28 {
            Gpio { high_ie: data, ..self }
        } else if reg == 0x2c {
            Gpio { high_ip: self.high_ip & !data, ..self }
        } else if reg == 0x30 {
            Gpio { low_ie: data, ..self }
        } else if reg == 0x34 {
            Gpio { low_ip: self.low_ip & !data, ..self }
        } else if reg == 0x38 {
            Gpio { iof_en: data, ..self }
        } else if reg == 0x3c {
            Gpio { iof_sel: data, ..self }
        } else if reg == 0x40 {
            Gpio { out_xor: data, ..self }
        } else {
            self
        }
    }

    #[verifier::when_used_as_spec(spec_written)]
    pub fn written(self, addr: u64, data: u32) -> (gpio: Gpio)
        ensures
            gpio == self.spec_written(addr, data),
    {
        let reg: u64 = addr & 0xff;
        if reg == 0x00 {
            Gpio { input_val: data, ..self }
        } else if reg == 0x04 {
            Gpio { input_en: data, ..self }
        } else if reg == 0x08 {
            Gpio { output_en: data, ..self }
        } else if reg == 0x0c {
            Gpio { output_val: data, ..self }
        } else if reg == 0x10 {
            Gpio { pue: data, ..self }
        } else if reg == 0x14 {
            Gpio { ds: data, ..self }
        } else if reg == 0x18 {
            Gpio { rise_ie: data, ..self }
        } else if reg == 0x1c {
            Gpio { rise_ip: self.rise_ip & !data, ..self }
        } else if reg == 0x20 {
            Gpio { fall_ie: data, ..self }
        } else if reg == 0x24 {
            Gpio { fall_ip: self.fall_ip & !data, ..self }
        } else if reg == 0x28 {
            Gpio { high_ie: data, ..self }
        } else if reg == 0x2c {
            Gpio { high_ip: self.high_ip & !data, ..self }
        } else if reg == 0x30 {
            Gpio { low_ie: data, ..self }
        } else if reg == 0x34 {
            Gpio { low_ip: self.low_ip & !data, ..self }
        } else if reg == 0x38 {
            Gpio { iof_en: data, ..self }
        } else if reg == 0x3c {
            Gpio { iof_sel: data, ..self }
        } else if reg == 0x40 {
            Gpio { out_xor: data, ..self }
        } else {
            self
        }
    }

    /// The block has no clocked behaviour.
    pub fn tick(&mut self)
        ensures
            *final(self) == *old(self),
    {
    }

    pub fn write(&mut self, addr: u64, data: u32)
        ensures
            *final(self) == old(self).written(addr, data),
    {
        *self = self.written(addr, data);
    }
}

} // verus!
