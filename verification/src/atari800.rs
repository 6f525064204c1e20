use crate::addressable::Addressable;
use crate::antic::{pins_after, Antic, AnticView};
use crate::bus::Bus;
use crate::cpu::{Cpu, Fault};
use crate::cpu_pins::CpuPins;
use crate::gtia::{Gtia, GtiaView};
use crate::isa::{reset_to, ticked};
use crate::mem::{os_rom_plane, zero_plane, Mem, MemError, MemView};
use crate::mem_controller::{first_hit, MemController};
use crate::pia::Pia;
use crate::pokey::{Pokey, PokeyView};
use vstd::prelude::*;

verus! {

/// Where the operating-system ROM starts: below it the processor sees RAM.
pub const ROM_SPLIT: u16 = 0xD800;

/// What stands behind an address.
#[derive(Clone, Copy, Debug, PartialEq, Eq, Structural)]
pub enum Device {
    Gtia,
    Pokey,
    Pia,
    Antic,
    Memory,
}

/// What stands behind `addr`: each chip has one page of the address space,
/// in which its registers repeat; everything else is memory.
pub open spec fn device_at(addr: u16) -> Device {
    if addr / 256 == 0xD0 {
        Device::Gtia
    } else if addr / 256 == 0xD2 {
        Device::Pokey
    } else if addr / 256 == 0xD3 {
        Device::Pia
    } else if addr / 256 == 0xD4 {
        Device::Antic
    } else {
        Device::Memory
    }
}

/// Everything that the processor reaches through the bus: the memory and
/// the four chips.
pub struct Board {
    controller: MemController<Device>,
    mem: Mem,
    antic: Antic,
    gtia: Gtia,
    pokey: Pokey,
    pia: Pia,
}

/// The state of memory and chips.
pub struct BoardView {
    pub mem: MemView,
    pub antic: AnticView,
    pub gtia: GtiaView,
    pub pokey: PokeyView,
    pub pia: Pia,
}

impl BoardView {
    pub open spec fn wf(self) -> bool {
        self.mem.wf() && self.antic.wf() && self.gtia.wf() && self.pokey.wf()
    }

    /// What a read at `addr` returns.
    pub open spec fn byte(self, addr: u16) -> u8 {
        match device_at(addr) {
            Device::Gtia => self.gtia.register(addr),
            Device::Pokey => self.pokey.register(addr),
            Device::Pia => self.pia.register(addr),
            Device::Antic => self.antic.register(addr),
            Device::Memory => self.mem.byte(addr),
        }
    }

    /// Whether a write at `addr` is legal: every register takes a write, and
    /// memory does where it is RAM.
    pub open spec fn accepts(self, addr: u16) -> bool {
        device_at(addr) != Device::Memory || self.mem.is_ram(addr)
    }

    /// The state after `val` was written at `addr`.
    pub open spec fn written(self, addr: u16, val: u8) -> BoardView {
        match device_at(addr) {
            Device::Gtia => BoardView { gtia: self.gtia.written(addr, val), ..self },
            Device::Pokey => BoardView { pokey: self.pokey.written(addr, val), ..self },
            Device::Pia => BoardView { pia: self.pia.written(addr, val), ..self },
            Device::Antic => BoardView { antic: self.antic.written(addr, val), ..self },
            Device::Memory => BoardView { mem: self.mem.with_byte(addr, val), ..self },
        }
    }
}

impl View for Board {
    type V = BoardView;

    closed spec fn view(&self) -> BoardView {
        BoardView {
            mem: self.mem@,
            antic: self.antic@,
            gtia: self.gtia@,
            pokey: self.pokey@,
            pia: self.pia,
        }
    }
}

impl Board {
    /// Memory and chips after power-on, with the address decoder set up.
    pub fn new(mem: Mem) -> (board: Board)
        requires
            mem.inv(),
        ensures
            board.valid(),
            board@ == (BoardView {
                mem: mem@,
                antic: AnticView::initial(),
                gtia: GtiaView::initial(),
                pokey: PokeyView::initial(),
                pia: Pia::initial(),
            }),
    {
        let mut controller: MemController<Device> = MemController::new(Device::Memory);
        controller.register_range(0xD000..0xD100, Device::Gtia);
        controller.register_range(0xD200..0xD300, Device::Pokey);
        controller.register_range(0xD300..0xD400, Device::Pia);
        controller.register_range(0xD400..0xD500, Device::Antic);
        proof {
            assert forall|addr: u16| #[trigger] controller.target(addr) == device_at(addr) by {
                reveal_with_fuel(first_hit, 5);
            }
        }
        Board {
            controller,
            mem,
            antic: Antic::new(),
            gtia: Gtia::new(),
            pokey: Pokey::new(),
            pia: Pia::new(),
        }
    }

    /// What stands behind `addr`.
    pub fn device_for(&self, addr: u16) -> (device: Device)
        requires
            self.valid(),
        ensures
            device == device_at(addr),
    {
        *self.controller.get_target(addr)
    }

    pub fn mem(&self) -> (mem: &Mem)
        ensures
            mem@ == self@.mem,
            self.valid() ==> mem.inv(),
    {
        &self.mem
    }

    pub fn antic(&self) -> (antic: &Antic)
        ensures
            antic@ == self@.antic,
            self.valid() ==> antic.inv(),
    {
        &self.antic
    }

    pub fn gtia(&self) -> (gtia: &Gtia)
        ensures
            gtia@ == self@.gtia,
            self.valid() ==> gtia.inv(),
    {
        &self.gtia
    }

    pub fn pokey(&self) -> (pokey: &Pokey)
        ensures
            pokey@ == self@.pokey,
    {
        &self.pokey
    }

    pub fn pia(&self) -> (pia: &Pia)
        ensures
            *pia == self@.pia,
    {
        &self.pia
    }

    /// Sets the levels on the pins of the two ports of the interface adapter.
    pub fn set_port_inputs(&mut self, porta: u8, portb: u8)
        requires
            old(self).valid(),
        ensures
            final(self).valid(),
            final(self)@ == (BoardView {
                pia: Pia { porta_input: porta, portb_input: portb, ..old(self)@.pia },
                ..old(self)@
            }),
    {
        self.pia.set_porta_input(porta);
        self.pia.set_portb_input(portb);
    }

    /// Copies `bytes` into RAM from `addr` on.
    pub fn load_ram(&mut self, addr: u16, bytes: &[u8])
        requires
            old(self).valid(),
            addr + bytes@.len() <= 0x10000,
        ensures
            final(self).valid(),
            final(self)@.antic == old(self)@.antic,
            final(self)@.gtia == old(self)@.gtia,
            final(self)@.pokey == old(self)@.pokey,
            final(self)@.pia == old(self)@.pia,
            final(self)@.mem.split == old(self)@.mem.split,
            final(self)@.mem.rom == old(self)@.mem.rom,
            final(self)@.mem.ram.len() == 0x10000,
            forall|i: int|
                0 <= i < 0x10000 ==> #[trigger] final(self)@.mem.ram[i] == if addr <= i < addr
                    + bytes@.len() {
                    bytes@[i - addr]
                } else {
                    old(self)@.mem.ram[i]
                },
    {
        self.mem.load_ram(addr, bytes);
    }

    /// Reads the byte at `addr` from the device that stands there.
    pub fn read_byte(&self, addr: u16) -> (val: u8)
        requires
            self.valid(),
        ensures
            val == self@.byte(addr),
    {
        match self.device_for(addr) {
            Device::Gtia => self.gtia.read_register(addr),
            Device::Pokey => self.pokey.read_register(addr),
            Device::Pia => self.pia.read_register(addr),
            Device::Antic => self.antic.get_byte(addr),
            Device::Memory => self.mem.get_byte(addr),
        }
    }

    /// Whether the device at `addr` takes a write.
    pub fn takes_write(&self, addr: u16) -> (ok: bool)
        requires
            self.valid(),
        ensures
            ok == self@.accepts(addr),
    {
        match self.device_for(addr) {
            Device::Memory => self.mem.can_set(addr),
            _ => true,
        }
    }

    /// Writes `val` at `addr` to the device that stands there.
    pub fn write_byte(&mut self, addr: u16, val: u8)
        requires
            old(self).valid(),
            old(self)@.accepts(addr),
        ensures
            final(self).valid(),
            final(self)@ == old(self)@.written(addr, val),
    {
        match self.device_for(addr) {
            Device::Gtia => self.gtia.write_register(addr, val),
            Device::Pokey => self.pokey.write_register(addr, val),
            Device::Pia => self.pia.write_register(addr, val),
            Device::Antic => self.antic.set_byte(addr, val),
            Device::Memory => self.mem.set_byte(addr, val),
        }
    }

    /// One tick of the display processor.
    pub fn tick_antic(&mut self, pins: &mut CpuPins)
        requires
            old(self).valid(),
        ensures
            final(self).valid(),
            final(self)@ == (BoardView {
                antic: old(self)@.antic.ticked(old(self)@.mem).antic,
                ..old(self)@
            }),
            *final(pins) == pins_after(*old(pins), old(self)@.antic.ticked(old(self)@.mem)),
    {
        self.antic.tick(&self.mem, pins);
    }

    /// One tick of the chips that run beside the processor.
    pub fn tick_devices(&mut self)
        requires
            old(self).valid(),
        ensures
            final(self).valid(),
            final(self)@ == (BoardView {
                gtia: old(self)@.gtia.ticked(),
                pokey: old(self)@.pokey.ticked(),
                ..old(self)@
            }),
    {
        self.gtia.tick();
        self.pokey.tick();
        self.pia.tick();
    }

    /// Produces the picture of one frame.
    pub fn draw_frame(&mut self)
        requires
            old(self).valid(),
        ensures
            final(self).valid(),
            final(self)@ == (BoardView {
                antic: crate::antic::frame_drawn(
                    old(self)@.antic,
                    old(self)@.gtia,
                    old(self)@.mem,
                    192,
                ).0,
                gtia: crate::antic::frame_drawn(
                    old(self)@.antic,
                    old(self)@.gtia,
                    old(self)@.mem,
                    192,
                ).1,
                ..old(self)@
            }),
    {
        self.antic.draw_frame(&self.mem, &mut self.gtia);
    }
}

impl Bus for Board {
    type Model = BoardView;

    open spec fn model(&self) -> BoardView {
        self@
    }

    closed spec fn valid(&self) -> bool {
        &&& self.mem.inv()
        &&& self.antic.inv()
        &&& self.gtia.inv()
        &&& forall|addr: u16| #[trigger] self.controller.target(addr) == device_at(addr)
    }

    open spec fn peek(m: BoardView, addr: u16) -> u8 {
        m.byte(addr)
    }

    open spec fn after_read(m: BoardView, addr: u16) -> BoardView {
        m
    }

    open spec fn accepts(m: BoardView, addr: u16) -> bool {
        m.accepts(addr)
    }

    open spec fn after_write(m: BoardView, addr: u16, val: u8) -> BoardView {
        m.written(addr, val)
    }

    fn read(&mut self, addr: u16) -> (val: u8) {
        self.read_byte(addr)
    }

    fn writable(&self, addr: u16) -> (ok: bool) {
        self.takes_write(addr)
    }

    fn write(&mut self, addr: u16, val: u8) {
        self.write_byte(addr, val);
    }
}

/// The state of the whole machine.
pub struct MachineView {
    pub cpu: Cpu,
    pub pins: CpuPins,
    pub board: BoardView,
}

/// The machine after a tick, and the fault that stopped the processor, if
/// any.
pub struct MachineStep {
    pub machine: MachineView,
    pub fault: Option<Fault>,
}

impl MachineView {
    /// The machine after the tick of the display processor.
    pub open spec fn display_ticked(self) -> MachineView {
        let tick = self.board.antic.ticked(self.board.mem);
        MachineView {
            pins: pins_after(self.pins, tick),
            board: BoardView { antic: tick.antic, ..self.board },
            ..self
        }
    }

    /// The machine with the interrupt lines latched: a raised non-maskable
    /// interrupt line becomes a pending interrupt of the processor and is
    /// lowered again, and the interrupt-request line is passed on.
    pub open spec fn latched(self) -> MachineView {
        MachineView {
            cpu: Cpu {
                nmi_pending: self.cpu.nmi_pending || self.pins.nmi,
                irq_line: self.pins.irq,
                ..self.cpu
            },
            pins: CpuPins { nmi: false, ..self.pins },
            ..self
        }
    }

    /// The machine after the tick of the processor, which waits while the
    /// display processor holds the bus.
    pub open spec fn processor_ticked(self) -> MachineStep {
        if self.pins.halt {
            MachineStep { machine: self, fault: None }
        } else {
            let step = ticked::<Board>(self.cpu, self.board);
            MachineStep {
                machine: MachineView { cpu: step.cpu, board: step.bus, ..self },
                fault: step.fault,
            }
        }
    }

    /// The machine after the tick of the chips that run beside the
    /// processor.
    pub open spec fn devices_ticked(self) -> MachineView {
        MachineView {
            board: BoardView {
                gtia: self.board.gtia.ticked(),
                pokey: self.board.pokey.ticked(),
                ..self.board
            },
            ..self
        }
    }

    /// One tick of the machine. The display processor comes first, then the
    /// processor, which waits while the display processor holds the bus.
    /// Then the interrupt lines are latched, so that the processor sees an
    /// interrupt that the display processor raised in this tick at an
    /// instruction boundary of a later tick. Last come the other chips.
    /// After a fault of the processor nothing further happens.
    pub open spec fn ticked(self) -> MachineStep {
        let step = self.display_ticked().processor_ticked();
        if step.fault is Some {
            step
        } else {
            MachineStep { machine: step.machine.latched().devices_ticked(), fault: None }
        }
    }
}

/// The machine: a processor, the lines that signal it, and the board with
/// memory and chips.
pub struct Atari800 {
    cpu: Cpu,
    cpu_pins: CpuPins,
    board: Board,
}

impl View for Atari800 {
    type V = MachineView;

    closed spec fn view(&self) -> MachineView {
        MachineView { cpu: self.cpu, pins: self.cpu_pins, board: self.board@ }
    }
}

impl Atari800 {
    pub closed spec fn inv(&self) -> bool {
        self.board.valid()
    }

    /// A machine with the operating-system ROM `rom_image`, after reset.
    /// The image has to be 10240 bytes long.
    pub fn new(rom_image: &[u8]) -> (made: Result<Atari800, MemError>)
        ensures
            made is Ok <==> rom_image@.len() == crate::mem::OS_ROM_SIZE,
            made matches Err(e) ==> e == MemError::ImageSize,
            made matches Ok(machine) ==> {
                &&& machine.inv()
                &&& machine@.pins == CpuPins::new_spec()
                &&& machine@.board.mem.split == ROM_SPLIT
                &&& machine@.board.mem.ram == zero_plane()
                &&& machine@.board.mem.rom == os_rom_plane(rom_image@)
                &&& machine@.board.antic == AnticView::initial()
                &&& machine@.board.gtia == GtiaView::initial()
                &&& machine@.board.pokey == PokeyView::initial()
                &&& machine@.board.pia == Pia::initial()
                &&& machine@.cpu == reset_to::<Board>(Cpu::power_on(), machine@.board).cpu
            },
    {
        let mem = match Mem::new(ROM_SPLIT, false, rom_image) {
            Ok(mem) => mem,
            Err(e) => {
                return Err(e);
            },
        };
        let mut machine = Atari800 { cpu: Cpu::new(), cpu_pins: CpuPins::new(), board: Board::new(mem) };
        machine.cpu.reset(&mut machine.board);
        Ok(machine)
    }

    pub fn cpu(&self) -> (cpu: &Cpu)
        ensures
            *cpu == self@.cpu,
    {
        &self.cpu
    }

    pub fn pins(&self) -> (pins: &CpuPins)
        ensures
            *pins == self@.pins,
    {
        &self.cpu_pins
    }

    pub fn board(&self) -> (board: &Board)
        ensures
            board@ == self@.board,
            self.inv() ==> board.valid(),
    {
        &self.board
    }

    /// Sets the level of the interrupt-request line.
    pub fn set_irq(&mut self, level: bool)
        requires
            old(self).inv(),
        ensures
            final(self).inv(),
            final(self)@ == (MachineView {
                pins: CpuPins { irq: level, ..old(self)@.pins },
                ..old(self)@
            }),
    {
        self.cpu_pins.irq = level;
    }

    /// Sets the levels on the pins of the two ports of the interface adapter.
    pub fn set_port_inputs(&mut self, porta: u8, portb: u8)
        requires
            old(self).inv(),
        ensures
            final(self).inv(),
            final(self)@ == (MachineView {
                board: BoardView {
                    pia: Pia { porta_input: porta, portb_input: portb, ..old(self)@.board.pia },
                    ..old(self)@.board
                },
                ..old(self)@
            }),
    {
        self.board.set_port_inputs(porta, portb);
    }

    /// Latches the interrupt lines into the processor.
    pub fn latch_interrupts(&mut self)
        requires
            old(self).inv(),
        ensures
            final(self).inv(),
            final(self)@ == old(self)@.latched(),
    {
        if self.cpu_pins.nmi {
            self.cpu.request_nmi();
            self.cpu_pins.nmi = false;
        }
        self.cpu.set_irq(self.cpu_pins.irq);
    }

    /// One tick of the display processor.
    pub fn tick_display(&mut self)
        requires
            old(self).inv(),
        ensures
            final(self).inv(),
            final(self)@ == old(self)@.display_ticked(),
    {
        self.board.tick_antic(&mut self.cpu_pins);
    }

    /// One tick of the processor, unless the display processor holds the
    /// bus.
    pub fn tick_processor(&mut self) -> (result: Result<(), Fault>)
        requires
            old(self).inv(),
        ensures
            final(self).inv(),
            final(self)@ == old(self)@.processor_ticked().machine,
            result is Ok <==> old(self)@.processor_ticked().fault is None,
            result matches Err(fault) ==> old(self)@.processor_ticked().fault == Some(fault),
    {
        if self.cpu_pins.halt {
            Ok(())
        } else {
            self.cpu.tick(&mut self.board)
        }
    }

    /// One tick of the chips that run beside the processor.
    pub fn tick_devices(&mut self)
        requires
            old(self).inv(),
        ensures
            final(self).inv(),
            final(self)@ == old(self)@.devices_ticked(),
    {
        self.board.tick_devices();
    }

    /// One tick of the machine.
    pub fn tick(&mut self) -> (result: Result<(), Fault>)
        requires
            old(self).inv(),
        ensures
            final(self).inv(),
            final(self)@ == old(self)@.ticked().machine,
            result is Ok <==> old(self)@.ticked().fault is None,
            result matches Err(fault) ==> old(self)@.ticked().fault == Some(fault),
    {
        self.tick_display();
        let result = self.tick_processor();
        if result.is_ok() {
            self.latch_interrupts();
            self.tick_devices();
        }
        result
    }

    /// Produces the picture of one frame in the video chip's framebuffer.
    pub fn render_frame(&mut self)
        requires
            old(self).inv(),
        ensures
            final(self).inv(),
            final(self)@.cpu == old(self)@.cpu,
            final(self)@.pins == old(self)@.pins,
            final(self)@.board == (BoardView {
                antic: crate::antic::frame_drawn(
                    old(self)@.board.antic,
                    old(self)@.board.gtia,
                    old(self)@.board.mem,
                    192,
                ).0,
                gtia: crate::antic::frame_drawn(
                    old(self)@.board.antic,
                    old(self)@.board.gtia,
                    old(self)@.board.mem,
                    192,
                ).1,
                ..old(self)@.board
            }),
    {
        self.board.draw_frame();
    }
}

/// What was written to RAM is what is read there, every other address then
/// reads what its device says of the new state, and the ROM window accepts
/// no write. Registers accept every write.
pub proof fn lemma_bus_round_trip(m: BoardView, addr: u16, val: u8)
    requires
        m.wf(),
    ensures
        device_at(addr) == Device::Memory && m.mem.is_ram(addr) ==> m.accepts(addr) && m.written(
            addr,
            val,
        ).byte(addr) == val,
        device_at(addr) == Device::Memory && !m.mem.is_ram(addr) ==> !m.accepts(addr),
        device_at(addr) != Device::Memory ==> m.accepts(addr),
        m.written(addr, val).wf(),
{
    if device_at(addr) == Device::Pokey {
        let reg = addr % 16;
        if reg == 9 {
            assert(m.pokey.reloaded().len() == 4);
        }
    }
}

} // verus!
