// An Atari 800 in software: a 6502 processor, the display processor, the
// video, sound and interface chips, and the bus that joins them.
//
// The processor is defined twice: `isa` says as mathematics what each
// instruction does, and `cpu`, `micro_ops`, the handlers and `dispatch`
// execute it; every executable function is proved against the definition.
// `laws` holds what follows for all instructions of a kind.
pub mod addressable;
pub mod alu;
pub mod antic;
pub mod atari800;
pub mod bus;
pub mod cpu;
pub mod cpu_pins;
pub mod cpu_table;
pub mod debugger;
pub mod dispatch;
pub mod framebuffer;
pub mod functional_test;
pub mod gtia;
pub mod handlers_high;
pub mod handlers_low;
pub mod isa;
pub mod laws;
pub mod mem;
pub mod mem_controller;
pub mod micro_ops;
pub mod pia;
pub mod pokey;
