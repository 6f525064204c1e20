use vstd::prelude::*;

verus! {

/// The lines through which the rest of the machine signals the processor.
#[derive(Clone, Copy, Debug, PartialEq, Eq, Structural)]
pub struct CpuPins {
    /// Interrupt request.
    pub irq: bool,
    /// Non-maskable interrupt.
    pub nmi: bool,
    /// Ready.
    pub rdy: bool,
    /// The display processor holds the bus: the processor has to wait.
    pub halt: bool,
}

impl CpuPins {
    /// All lines low.
    pub open spec fn new_spec() -> CpuPins {
        CpuPins { irq: false, nmi: false, rdy: false, halt: false }
    }

    pub fn new() -> (pins: CpuPins)
        ensures
            pins == CpuPins::new_spec(),
    {
        CpuPins { irq: false, nmi: false, rdy: false, halt: false }
    }
}

} // verus!
