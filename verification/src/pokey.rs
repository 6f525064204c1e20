use vstd::prelude::*;

verus! {

/// The sound, timer and keyboard chip, as far as its registers go.
pub struct Pokey {
    audf: [u8; 4],
    audc: [u8; 4],
    audctl: u8,
    stimer: u8,
    skrest: u8,
    potgo: u8,
    serout: u8,
    irqen: u8,
    skctl: u8,
    pot: [u8; 8],
    allpot: u8,
    kbcode: u8,
    random: u8,
    serin: u8,
    irqst: u8,
    skstat: u8,
    timers: [u16; 4],
    random_seed: u8,
}

/// The state of the chip: what was written, what can be read, and the
/// internal counters.
pub struct PokeyView {
    pub audf: Seq<u8>,
    pub audc: Seq<u8>,
    pub audctl: u8,
    pub stimer: u8,
    pub skrest: u8,
    pub potgo: u8,
    pub serout: u8,
    pub irqen: u8,
    pub skctl: u8,
    pub pot: Seq<u8>,
    pub allpot: u8,
    pub kbcode: u8,
    pub random: u8,
    pub serin: u8,
    pub irqst: u8,
    pub skstat: u8,
    pub timers: Seq<u16>,
    pub random_seed: u8,
}

/// The next value of the shift register behind the random-number register:
/// it moves left by one bit, and bit 7 exclusive-or bit 5 enters at the right.
pub open spec fn lfsr_next(seed: u8) -> u8 {
    (seed << 1) | ((seed >> 7) ^ ((seed >> 5) & 1))
}

impl PokeyView {
    pub open spec fn wf(self) -> bool {
        self.audf.len() == 4 && self.audc.len() == 4 && self.pot.len() == 8 && self.timers.len()
            == 4
    }

    /// The chip after power-on.
    pub open spec fn initial() -> PokeyView {
        PokeyView {
            audf: Seq::new(4, |i: int| 0u8),
            audc: Seq::new(4, |i: int| 0u8),
            audctl: 0,
            stimer: 0,
            skrest: 0,
            potgo: 0,
            serout: 0,
            irqen: 0,
            skctl: 0,
            pot: Seq::new(8, |i: int| 0xFFu8),
            allpot: 0,
            kbcode: 0xFF,
            random: 0,
            serin: 0,
            irqst: 0,
            skstat: 0,
            timers: Seq::new(4, |i: int| 0u16),
            random_seed: 0xFF,
        }
    }

    /// What a read at `addr` returns: the low four address bits select the
    /// register, and one without a readable register reads as 0xFF.
    pub open spec fn register(self, addr: u16) -> u8 {
        let reg = addr % 16;
        if reg < 8 {
            self.pot[reg as int]
        } else if reg == 0x08 {
            self.allpot
        } else if reg == 0x09 {
            self.kbcode
        } else if reg == 0x0A {
            self.random
        } else if reg == 0x0D {
            self.serin
        } else if reg == 0x0E {
            self.irqst
        } else if reg == 0x0F {
            self.skstat
        } else {
            0xFF
        }
    }

    /// The timers reloaded from the frequency registers.
    pub open spec fn reloaded(self) -> Seq<u16> {
        Seq::new(4, |i: int| self.audf[i] as u16)
    }

    /// The chip after `val` was written at `addr`. Even registers below 8 are
    /// frequencies, odd ones controls; a write to the timer-start register
    /// reloads all timers.
    pub open spec fn written(self, addr: u16, val: u8) -> PokeyView {
        let reg = addr % 16;
        if reg < 8 && reg % 2 == 0 {
            PokeyView { audf: self.audf.update(reg as int / 2, val), ..self }
        } else if reg < 8 {
            PokeyView { audc: self.audc.update(reg as int / 2, val), ..self }
        } else if reg == 0x08 {
            PokeyView { audctl: val, ..self }
        } else if reg == 0x09 {
            PokeyView { stimer: val, timers: self.reloaded(), ..self }
        } else if reg == 0x0A {
            PokeyView { skrest: val, ..self }
        } else if reg == 0x0B {
            PokeyView { potgo: val, ..self }
        } else if reg == 0x0D {
            PokeyView { serout: val, ..self }
        } else if reg == 0x0E {
            PokeyView { irqen: val, ..self }
        } else if reg == 0x0F {
            PokeyView { skctl: val, ..self }
        } else {
            self
        }
    }

    /// The chip one cycle later: each timer counts down and reloads from its
    /// frequency register at zero, and the random register takes the next
    /// value of the shift register.
    pub open spec fn ticked(self) -> PokeyView {
        PokeyView {
            timers: Seq::new(
                4,
                |i: int|
                    if self.timers[i] > 0 {
                        (self.timers[i] - 1) as u16
                    } else {
                        self.audf[i] as u16
                    },
            ),
            random_seed: lfsr_next(self.random_seed),
            random: lfsr_next(self.random_seed),
            ..self
        }
    }
}

impl View for Pokey {
    type V = PokeyView;

    closed spec fn view(&self) -> PokeyView {
        PokeyView {
            audf: self.audf@,
            audc: self.audc@,
            audctl: self.audctl,
            stimer: self.stimer,
            skrest: self.skrest,
            potgo: self.potgo,
            serout: self.serout,
            irqen: self.irqen,
            skctl: self.skctl,
            pot: self.pot@,
            allpot: self.allpot,
            kbcode: self.kbcode,
            random: self.random,
            serin: self.serin,
            irqst: self.irqst,
            skstat: self.skstat,
            timers: self.timers@,
            random_seed: self.random_seed,
        }
    }
}

impl Pokey {
    pub fn new() -> (pokey: Pokey)
        ensures
            pokey@ == PokeyView::initial(),
    {
        let pokey = Pokey {
            audf: [0;4],
            audc: [0;4],
            audctl: 0,
            stimer: 0,
            skrest: 0,
            potgo: 0,
            serout: 0,
            irqen: 0,
            skctl: 0,
            pot: [0xFF;8],
            allpot: 0,
            kbcode: 0xFF,
            random: 0,
            serin: 0,
            irqst: 0,
            skstat: 0,
            timers: [0;4],
            random_seed: 0xFF,
        };
        assert(pokey@.audf =~= PokeyView::initial().audf);
        assert(pokey@.audc =~= PokeyView::initial().audc);
        assert(pokey@.pot =~= PokeyView::initial().pot);
        assert(pokey@.timers =~= PokeyView::initial().timers);
        pokey
    }

    /// The view of a chip is always well formed.
    pub proof fn lemma_wf(&self)
        ensures
            self@.wf(),
    {
    }

    /// One machine cycle.
    pub fn tick(&mut self)
        ensures
            final(self)@ == old(self)@.ticked(),
    {
        let mut i: usize = 0;
        while i < 4
            invariant
                i <= 4,
                self@ == (PokeyView { timers: self.timers@, ..old(self)@ }),
                forall|k: int|
                    0 <= k < 4 ==> #[trigger] self.timers@[k] == if k < i {
                        old(self)@.ticked().timers[k]
                    } else {
                        old(self).timers@[k]
                    },
            decreases 4 - i,
        {
            if self.timers[i] > 0 {
                self.timers[i] = self.timers[i] - 1;
            } else {
                self.timers[i] = self.audf[i] as u16;
            }
            i = i + 1;
        }
        self.random_seed = (self.random_seed << 1) | ((self.random_seed >> 7) ^ ((self.random_seed
            >> 5) & 1));
        self.random = self.random_seed;
        assert(self.timers@ =~= old(self)@.ticked().timers);
    }

    pub fn read_register(&self, addr: u16) -> (val: u8)
        ensures
            val == self@.register(addr),
    {
        assert(addr & 0x0F == addr % 16) by (bit_vector);
        let reg: u16 = addr & 0x0F;
        match reg {
            0x00 | 0x01 | 0x02 | 0x03 | 0x04 | 0x05 | 0x06 | 0x07 => self.pot[reg as usize],
            0x08 => self.allpot,
            0x09 => self.kbcode,
            0x0A => self.random,
            0x0D => self.serin,
            0x0E => self.irqst,
            0x0F => self.skstat,
            _ => 0xFF,
        }
    }

    pub fn write_register(&mut self, addr: u16, val: u8)
        ensures
            final(self)@ == old(self)@.written(addr, val),
    {
        assert(addr & 0x0F == addr % 16) by (bit_vector);
        let reg: u16 = addr & 0x0F;
        match reg {
            0x00 | 0x02 | 0x04 | 0x06 => {
                self.audf[(reg / 2) as usize] = val;
            },
            0x01 | 0x03 | 0x05 | 0x07 => {
                self.audc[(reg / 2) as usize] = val;
            },
            0x08 => self.audctl = val,
            0x09 => {
                self.stimer = val;
                let mut i: usize = 0;
                while i < 4
                    invariant
                        i <= 4,
                        self@ == (PokeyView { stimer: val, timers: self.timers@, ..old(self)@ }),
                        forall|k: int|
                            0 <= k < 4 ==> #[trigger] self.timers@[k] == if k < i {
                                old(self).audf@[k] as u16
                            } else {
                                old(self).timers@[k]
                            },
                    decreases 4 - i,
                {
                    self.timers[i] = self.audf[i] as u16;
                    i = i + 1;
                }
                assert(self.timers@ =~= old(self)@.reloaded());
            },
            0x0A => self.skrest = val,
            0x0B => self.potgo = val,
            0x0D => self.serout = val,
            0x0E => self.irqen = val,
            0x0F => self.skctl = val,
            _ => {},
        }
    }
}

} // verus!
