use vstd::prelude::*;

verus! {

/// The parallel interface adapter: two ports, each with a data register, a
/// direction register and the levels that the outside puts on its pins.
#[derive(Clone, Copy, Debug, PartialEq, Eq, Structural)]
pub struct Pia {
    pub porta: u8,
    pub ddra: u8,
    pub portb: u8,
    pub ddrb: u8,
    pub porta_input: u8,
    pub portb_input: u8,
}

/// What a port reads as: the data register's bit where the direction register
/// says output, the pin's level where it says input.
pub open spec fn port_value(data: u8, direction: u8, input: u8) -> u8 {
    (data & direction) | (input & !direction)
}

impl Pia {
    /// The adapter after power-on: all pins are inputs and read high.
    pub open spec fn initial() -> Pia {
        Pia { porta: 0xFF, ddra: 0, portb: 0xFF, ddrb: 0, porta_input: 0xFF, portb_input: 0xFF }
    }

    /// What a read at `addr` returns: the two low address bits select the
    /// register.
    pub open spec fn register(self, addr: u16) -> u8 {
        match addr % 4 {
            0 => port_value(self.porta, self.ddra, self.porta_input),
            1 => self.ddra,
            2 => port_value(self.portb, self.ddrb, self.portb_input),
            _ => self.ddrb,
        }
    }

    /// The adapter after `val` was written at `addr`.
    pub open spec fn written(self, addr: u16, val: u8) -> Pia {
        match addr % 4 {
            0 => Pia { porta: val, ..self },
            1 => Pia { ddra: val, ..self },
            2 => Pia { portb: val, ..self },
            _ => Pia { ddrb: val, ..self },
        }
    }

    pub fn new() -> (pia: Pia)
        ensures
            pia == Pia::initial(),
    {
        Pia { porta: 0xFF, ddra: 0, portb: 0xFF, ddrb: 0, porta_input: 0xFF, portb_input: 0xFF }
    }

    /// One machine cycle: the adapter has no clocked behaviour.
    pub fn tick(&mut self)
        ensures
            *final(self) == *old(self),
    {
    }

    pub fn read_register(&self, addr: u16) -> (val: u8)
        ensures
            val == self.register(addr),
    {
        assert(addr & 0x03 == addr % 4) by (bit_vector);
        match addr & 0x03 {
            0x00 => (self.porta & self.ddra) | (self.porta_input & !self.ddra),
            0x01 => self.ddra,
            0x02 => (self.portb & self.ddrb) | (self.portb_input & !self.ddrb),
            _ => self.ddrb,
        }
    }

    pub fn write_register(&mut self, addr: u16, val: u8)
        ensures
            *final(self) == old(self).written(addr, val),
    {
        assert(addr & 0x03 == addr % 4) by (bit_vector);
        match addr & 0x03 {
            0x00 => self.porta = val,
            0x01 => self.ddra = val,
            0x02 => self.portb = val,
            _ => self.ddrb = val,
        }
    }

    /// Sets the levels on the pins of port A.
    pub fn set_porta_input(&mut self, val: u8)
        ensures
            *final(self) == (Pia { porta_input: val, ..*old(self) }),
    {
        self.porta_input = val;
    }

    /// Sets the levels on the pins of port B.
    pub fn set_portb_input(&mut self, val: u8)
        ensures
            *final(self) == (Pia { portb_input: val, ..*old(self) }),
    {
        self.portb_input = val;
    }
}

/// A data-direction register gives back what was written to it, and a port
/// whose pins are all outputs gives back its data register.
pub proof fn lemma_pia_registers(pia: Pia, val: u8)
    ensures
        pia.written(0xD301, val).register(0xD301) == val,
        pia.written(0xD303, val).register(0xD303) == val,
        pia.ddra == 0xFF ==> pia.written(0xD300, val).register(0xD300) == val,
        pia.ddra == 0 ==> pia.written(0xD300, val).register(0xD300) == pia.porta_input,
{
    let input = pia.porta_input;
    assert((val & 0xFFu8) | (input & !0xFFu8) == val) by (bit_vector);
    assert((val & 0u8) | (input & !0u8) == input) by (bit_vector);
}

} // verus!
