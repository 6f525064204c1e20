use vstd::prelude::*;

verus! {

/// The operations of the processor: the documented ones first, then the
/// undocumented ones that share their decoding.
#[derive(Clone, Copy, Debug, PartialEq, Eq, Structural)]
pub enum Op {
    ADC, AND, ASL, BCC, BCS, BEQ, BIT, BMI, BNE, BPL, BRK, BVC, BVS, CLC,
    CLD, CLI, CLV, CMP, CPX, CPY, DEC, DEX, DEY, EOR, HLT, INC, INX, INY, JMP,
    JSR, LDA, LDX, LDY, LSR, NOP, ORA, PHA, PHP, PLA, PLP, ROL, ROR, RTI,
    RTS, SBC, SEC, SED, SEI, SLO, STA, STX, STY, TAX, TAY, TSX, TXA, TXS, TYA,
    ALR, ANC, ARR, AHX, AXS, DCP, ISC, LAS, LAX, RLA, RRA, SAX, SHX, SHY, SRE, TAS, XAA,
}

/// How an instruction finds its operand.
#[derive(Clone, Copy, Debug, PartialEq, Eq, Structural)]
pub enum AddrMode {
    ABS, ABX, ABY, IMM, IMP, IND, IZX, IZY, REL, ZP, ZPA, ZPX, ZPY,
}

/// What an operation does with the byte its operand names.
#[derive(Clone, Copy, Debug, PartialEq, Eq, Structural)]
pub enum AccessType {
    CUSTOM, READ, WRITE, MODIFY,
}

/// Operation and addressing mode of each of the 256 opcodes.
pub const OPCODES: [(Op, AddrMode); 256] = [
    // 0x00 - 0x0F
    (Op::BRK, AddrMode::IMP), (Op::ORA, AddrMode::IZX), (Op::HLT, AddrMode::IMP), (Op::SLO, AddrMode::IZX),
    (Op::NOP, AddrMode::ZP), (Op::ORA, AddrMode::ZP), (Op::ASL, AddrMode::ZP), (Op::SLO, AddrMode::ZP),
    (Op::PHP, AddrMode::IMP), (Op::ORA, AddrMode::IMM), (Op::ASL, AddrMode::IMP), (Op::ANC, AddrMode::IMM),
    (Op::NOP, AddrMode::ABS), (Op::ORA, AddrMode::ABS), (Op::ASL, AddrMode::ABS), (Op::SLO, AddrMode::ABS),
    // 0x10 - 0x1F
    (Op::BPL, AddrMode::REL), (Op::ORA, AddrMode::IZY), (Op::HLT, AddrMode::IMP), (Op::SLO, AddrMode::IZY),
    (Op::NOP, AddrMode::ZPX), (Op::ORA, AddrMode::ZPX), (Op::ASL, AddrMode::ZPX), (Op::SLO, AddrMode::ZPX),
    (Op::CLC, AddrMode::IMP), (Op::ORA, AddrMode::ABY), (Op::NOP, AddrMode::IMP), (Op::SLO, AddrMode::ABY),
    (Op::NOP, AddrMode::ABX), (Op::ORA, AddrMode::ABX), (Op::ASL, AddrMode::ABX), (Op::SLO, AddrMode::ABX),
    // 0x20 - 0x2F
    (Op::JSR, AddrMode::ABS), (Op::AND, AddrMode::IZX), (Op::HLT, AddrMode::IMP), (Op::RLA, AddrMode::IZX),
    (Op::BIT, AddrMode::ZP), (Op::AND, AddrMode::ZP), (Op::ROL, AddrMode::ZP), (Op::RLA, AddrMode::ZP),
    (Op::PLP, AddrMode::IMP), (Op::AND, AddrMode::IMM), (Op::ROL, AddrMode::IMP), (Op::ANC, AddrMode::IMM),
    (Op::BIT, AddrMode::ABS), (Op::AND, AddrMode::ABS), (Op::ROL, AddrMode::ABS), (Op::RLA, AddrMode::ABS),
    // 0x30 - 0x3F
    (Op::BMI, AddrMode::REL), (Op::AND, AddrMode::IZY), (Op::HLT, AddrMode::IMP), (Op::RLA, AddrMode::IZY),
    (Op::NOP, AddrMode::ZPX), (Op::AND, AddrMode::ZPX), (Op::ROL, AddrMode::ZPX), (Op::RLA, AddrMode::ZPX),
    (Op::SEC, AddrMode::IMP), (Op::AND, AddrMode::ABY), (Op::NOP, AddrMode::IMP), (Op::RLA, AddrMode::ABY),
    (Op::NOP, AddrMode::ABX), (Op::AND, AddrMode::ABX), (Op::ROL, AddrMode::ABX), (Op::RLA, AddrMode::ABX),
    // 0x40 - 0x4F
    (Op::RTI, AddrMode::IMP), (Op::EOR, AddrMode::IZX), (Op::HLT, AddrMode::IMP), (Op::SRE, AddrMode::IZX),
    (Op::NOP, AddrMode::ZP), (Op::EOR, AddrMode::ZP), (Op::LSR, AddrMode::ZP), (Op::SRE, AddrMode::ZP),
    (Op::PHA, AddrMode::IMP), (Op::EOR, AddrMode::IMM), (Op::LSR, AddrMode::IMP), (Op::ALR, AddrMode::IMM),
    (Op::JMP, AddrMode::ABS), (Op::EOR, AddrMode::ABS), (Op::LSR, AddrMode::ABS), (Op::SRE, AddrMode::ABS),
    // 0x50 - 0x5F
    (Op::BVC, AddrMode::REL), (Op::EOR, AddrMode::IZY), (Op::HLT, AddrMode::IMP), (Op::SRE, AddrMode::IZY),
    (Op::NOP, AddrMode::ZPX), (Op::EOR, AddrMode::ZPX), (Op::LSR, AddrMode::ZPX), (Op::SRE, AddrMode::ZPX),
    (Op::CLI, AddrMode::IMP), (Op::EOR, AddrMode::ABY), (Op::NOP, AddrMode::IMP), (Op::SRE, AddrMode::ABY),
    (Op::NOP, AddrMode::ABX), (Op::EOR, AddrMode::ABX), (Op::LSR, AddrMode::ABX), (Op::SRE, AddrMode::ABX),
    // 0x60 - 0x6F
    (Op::RTS, AddrMode::IMP), (Op::ADC, AddrMode::IZX), (Op::HLT, AddrMode::IMP), (Op::RRA, AddrMode::IZX),
    (Op::NOP, AddrMode::ZP), (Op::ADC, AddrMode::ZP), (Op::ROR, AddrMode::ZP), (Op::RRA, AddrMode::ZP),
    (Op::PLA, AddrMode::IMP), (Op::ADC, AddrMode::IMM), (Op::ROR, AddrMode::IMP), (Op::ARR, AddrMode::IMM),
    (Op::JMP, AddrMode::IND), (Op::ADC, AddrMode::ABS), (Op::ROR, AddrMode::ABS), (Op::RRA, AddrMode::ABS),
    // 0x70 - 0x7F
    (Op::BVS, AddrMode::REL), (Op::ADC, AddrMode::IZY), (Op::HLT, AddrMode::IMP), (Op::RRA, AddrMode::IZY),
    (Op::NOP, AddrMode::ZPX), (Op::ADC, AddrMode::ZPX), (Op::ROR, AddrMode::ZPX), (Op::RRA, AddrMode::ZPX),
    (Op::SEI, AddrMode::IMP), (Op::ADC, AddrMode::ABY), (Op::NOP, AddrMode::IMP), (Op::RRA, AddrMode::ABY),
    (Op::NOP, AddrMode::ABX), (Op::ADC, AddrMode::ABX), (Op::ROR, AddrMode::ABX), (Op::RRA, AddrMode::ABX),
    // 0x80 - 0x8F
    (Op::NOP, AddrMode::IMM), (Op::STA, AddrMode::IZX), (Op::NOP, AddrMode::IMM), (Op::SAX, AddrMode::IZX),
    (Op::STY, AddrMode::ZP), (Op::STA, AddrMode::ZP), (Op::STX, AddrMode::ZP), (Op::SAX, AddrMode::ZP),
    (Op::DEY, AddrMode::IMP), (Op::NOP, AddrMode::IMM), (Op::TXA, AddrMode::IMP), (Op::XAA, AddrMode::IMM),
    (Op::STY, AddrMode::ABS), (Op::STA, AddrMode::ABS), (Op::STX, AddrMode::ABS), (Op::SAX, AddrMode::ABS),
    // 0x90 - 0x9F
    (Op::BCC, AddrMode::REL), (Op::STA, AddrMode::IZY), (Op::HLT, AddrMode::IMP), (Op::AHX, AddrMode::IZY),
    (Op::STY, AddrMode::ZPX), (Op::STA, AddrMode::ZPX), (Op::STX, AddrMode::ZPY), (Op::SAX, AddrMode::ZPY),
    (Op::TYA, AddrMode::IMP), (Op::STA, AddrMode::ABY), (Op::TXS, AddrMode::IMP), (Op::TAS, AddrMode::ABY),
    (Op::SHY, AddrMode::ABX), (Op::STA, AddrMode::ABX), (Op::SHX, AddrMode::ABY), (Op::AHX, AddrMode::ABY),
    // 0xA0 - 0xAF
    (Op::LDY, AddrMode::IMM), (Op::LDA, AddrMode::IZX), (Op::LDX, AddrMode::IMM), (Op::LAX, AddrMode::IZX),
    (Op::LDY, AddrMode::ZP), (Op::LDA, AddrMode::ZP), (Op::LDX, AddrMode::ZP), (Op::LAX, AddrMode::ZP),
    (Op::TAY, AddrMode::IMP), (Op::LDA, AddrMode::IMM), (Op::TAX, AddrMode::IMP), (Op::LAX, AddrMode::IMM),
    (Op::LDY, AddrMode::ABS), (Op::LDA, AddrMode::ABS), (Op::LDX, AddrMode::ABS), (Op::LAX, AddrMode::ABS),
    // 0xB0 - 0xBF
    (Op::BCS, AddrMode::REL), (Op::LDA, AddrMode::IZY), (Op::HLT, AddrMode::IMP), (Op::LAX, AddrMode::IZY),
    (Op::LDY, AddrMode::ZPX), (Op::LDA, AddrMode::ZPX), (Op::LDX, AddrMode::ZPY), (Op::LAX, AddrMode::ZPY),
    (Op::CLV, AddrMode::IMP), (Op::LDA, AddrMode::ABY), (Op::TSX, AddrMode::IMP), (Op::LAS, AddrMode::ABY),
    (Op::LDY, AddrMode::ABX), (Op::LDA, AddrMode::ABX), (Op::LDX, AddrMode::ABY), (Op::LAX, AddrMode::ABY),
    // 0xC0 - 0xCF
    (Op::CPY, AddrMode::IMM), (Op::CMP, AddrMode::IZX), (Op::NOP, AddrMode::IMM), (Op::DCP, AddrMode::IZX),
    (Op::CPY, AddrMode::ZP), (Op::CMP, AddrMode::ZP), (Op::DEC, AddrMode::ZP), (Op::DCP, AddrMode::ZP),
    (Op::INY, AddrMode::IMP), (Op::CMP, AddrMode::IMM), (Op::DEX, AddrMode::IMP), (Op::AXS, AddrMode::IMM),
    (Op::CPY, AddrMode::ABS), (Op::CMP, AddrMode::ABS), (Op::DEC, AddrMode::ABS), (Op::DCP, AddrMode::ABS),
    // 0xD0 - 0xDF
    (Op::BNE, AddrMode::REL), (Op::CMP, AddrMode::IZY), (Op::HLT, AddrMode::IMP), (Op::DCP, AddrMode::IZY),
    (Op::NOP, AddrMode::ZPX), (Op::CMP, AddrMode::ZPX), (Op::DEC, AddrMode::ZPX), (Op::DCP, AddrMode::ZPX),
    (Op::CLD, AddrMode::IMP), (Op::CMP, AddrMode::ABY), (Op::NOP, AddrMode::IMP), (Op::DCP, AddrMode::ABY),
    (Op::NOP, AddrMode::ABX), (Op::CMP, AddrMode::ABX), (Op::DEC, AddrMode::ABX), (Op::DCP, AddrMode::ABX),
    // 0xE0 - 0xEF
    (Op::CPX, AddrMode::IMM), (Op::SBC, AddrMode::IZX), (Op::NOP, AddrMode::IMM), (Op::ISC, AddrMode::IZX),
    (Op::CPX, AddrMode::ZP), (Op::SBC, AddrMode::ZP), (Op::INC, AddrMode::ZP), (Op::ISC, AddrMode::ZP),
    (Op::INX, AddrMode::IMP), (Op::SBC, AddrMode::IMM), (Op::NOP, AddrMode::IMP), (Op::SBC, AddrMode::IMM),
    (Op::CPX, AddrMode::ABS), (Op::SBC, AddrMode::ABS), (Op::INC, AddrMode::ABS), (Op::ISC, AddrMode::ABS),
    // 0xF0 - 0xFF
    (Op::BEQ, AddrMode::REL), (Op::SBC, AddrMode::IZY), (Op::HLT, AddrMode::IMP), (Op::ISC, AddrMode::IZY),
    (Op::NOP, AddrMode::ZPX), (Op::SBC, AddrMode::ZPX), (Op::INC, AddrMode::ZPX), (Op::ISC, AddrMode::ZPX),
    (Op::SED, AddrMode::IMP), (Op::SBC, AddrMode::ABY), (Op::NOP, AddrMode::IMP), (Op::ISC, AddrMode::ABY),
    (Op::NOP, AddrMode::ABX), (Op::SBC, AddrMode::ABX), (Op::INC, AddrMode::ABX), (Op::ISC, AddrMode::ABX),
];

/// Cycles that each opcode takes before any penalty for a page crossing or a
/// taken branch.
pub const BASE_CYCLES: [u8; 256] = [
    7, 6, 2, 8, 3, 3, 5, 5, 3, 2, 2, 2, 4, 4, 6, 6,
    2, 5, 2, 8, 4, 4, 6, 6, 2, 4, 2, 7, 4, 4, 7, 7,
    6, 6, 2, 8, 3, 3, 5, 5, 4, 2, 2, 2, 4, 4, 6, 6,
    2, 5, 2, 8, 4, 4, 6, 6, 2, 4, 2, 7, 4, 4, 7, 7,
    6, 6, 2, 8, 3, 3, 5, 5, 3, 2, 2, 2, 3, 4, 6, 6,
    2, 5, 2, 8, 4, 4, 6, 6, 2, 4, 2, 7, 4, 4, 7, 7,
    6, 6, 2, 8, 3, 3, 5, 5, 4, 2, 2, 2, 5, 4, 6, 6,
    2, 5, 2, 8, 4, 4, 6, 6, 2, 4, 2, 7, 4, 4, 7, 7,
    2, 6, 2, 6, 3, 3, 3, 3, 2, 2, 2, 2, 4, 4, 4, 4,
    2, 6, 2, 6, 4, 4, 4, 4, 2, 5, 2, 5, 5, 5, 5, 5,
    2, 6, 2, 6, 3, 3, 3, 3, 2, 2, 2, 2, 4, 4, 4, 4,
    2, 5, 2, 5, 4, 4, 4, 4, 2, 4, 2, 4, 4, 4, 4, 4,
    2, 6, 2, 8, 3, 3, 5, 5, 2, 2, 2, 2, 4, 4, 6, 6,
    2, 5, 2, 8, 4, 4, 6, 6, 2, 4, 2, 7, 4, 4, 7, 7,
    2, 6, 2, 8, 3, 3, 5, 5, 2, 2, 2, 2, 4, 4, 6, 6,
    2, 5, 2, 8, 4, 4, 6, 6, 2, 4, 2, 7, 4, 4, 7, 7,
];

/// Operation and addressing mode that `opcode` encodes.
pub open spec fn decode(opcode: u8) -> (Op, AddrMode) {
    OPCODES[opcode as int]
}

/// Base cycle count of `opcode`.
pub open spec fn base_cycles(opcode: u8) -> u8 {
    BASE_CYCLES[opcode as int]
}

/// How `op` uses the byte at its operand address: operations that only read
/// it, those that only write it, those that read, change and write it back;
/// everything else (jumps, branches, stack and register operations) is custom.
pub open spec fn access_of(op: Op) -> AccessType {
    match op {
        Op::LDA | Op::LDX | Op::LDY | Op::EOR | Op::AND | Op::ORA | Op::ADC | Op::SBC
        | Op::CMP | Op::BIT | Op::LAX | Op::LAS | Op::TAS | Op::NOP => AccessType::READ,
        Op::STA | Op::STX | Op::STY | Op::AHX | Op::SHX | Op::SHY => AccessType::WRITE,
        Op::ASL | Op::LSR | Op::ROL | Op::ROR | Op::INC | Op::DEC | Op::SLO | Op::SRE
        | Op::RLA | Op::RRA | Op::ISC | Op::DCP => AccessType::MODIFY,
        _ => AccessType::CUSTOM,
    }
}

/// The decoding table as a value that callers can hold and index.
pub struct CpuTable {
    pub opcode_info: [(Op, AddrMode); 256],
}

impl CpuTable {
    pub fn new() -> (table: CpuTable)
        ensures
            forall|opcode: u8| #[trigger] table.opcode_info[opcode as int] == decode(opcode),
    {
        CpuTable { opcode_info: OPCODES }
    }

    /// Operation and addressing mode of `opcode`.
    pub fn lookup(&self, opcode: u8) -> (entry: (Op, AddrMode))
        requires
            forall|o: u8| #[trigger] self.opcode_info[o as int] == decode(o),
        ensures
            entry == decode(opcode),
    {
        self.opcode_info[opcode as usize]
    }

    pub fn access_type(&self, op: Op) -> (access: AccessType)
        ensures
            access == access_of(op),
    {
        match op {
            Op::LDA | Op::LDX | Op::LDY | Op::EOR | Op::AND | Op::ORA | Op::ADC | Op::SBC
            | Op::CMP | Op::BIT | Op::LAX | Op::LAS | Op::TAS | Op::NOP => AccessType::READ,
            Op::STA | Op::STX | Op::STY | Op::AHX | Op::SHX | Op::SHY => AccessType::WRITE,
            Op::ASL | Op::LSR | Op::ROL | Op::ROR | Op::INC | Op::DEC | Op::SLO | Op::SRE
            | Op::RLA | Op::RRA | Op::ISC | Op::DCP => AccessType::MODIFY,
            _ => AccessType::CUSTOM,
        }
    }
}

/// Every opcode takes between two and eight cycles.
pub proof fn lemma_base_cycles(opcode: u8)
    ensures
        2 <= base_cycles(opcode) <= 8,
{
}

/// Base cycle count of `opcode`.
pub fn cycles_of(opcode: u8) -> (cycles: u8)
    ensures
        cycles == base_cycles(opcode),
        2 <= cycles <= 8,
{
    BASE_CYCLES[opcode as usize]
}

} // verus!
