use vstd::prelude::*;

verus! {

broadcast use vstd::string::group_string_axioms;

/// How an instruction's operand bytes map to an effective memory address.
#[derive(Clone, Copy, Debug, PartialEq, Eq, Structural)]
#[allow(non_camel_case_types)]
pub enum AddressingMode {
    Immediate,
    ZeroPage,
    ZeroPage_X,
    ZeroPage_Y,
    Absolute,
    Absolute_X,
    Absolute_Y,
    Indirect_X,
    Indirect_Y,
    NoneAddressing,
}

/// Static description of one opcode byte.
#[derive(Debug)]
pub struct OpCode {
    /// The opcode byte itself.
    pub instruction: u8,
    /// The mnemonic.
    pub label: String,
    /// Length of the whole instruction in bytes, opcode included.
    pub bytes: u8,
    /// Base cycle cost.
    pub cycles: u8,
    pub mode: AddressingMode,
}

/// The opcode table: mnemonic, length, cycle cost and addressing mode of each supported
/// opcode byte; `None` for a byte that the engine does not support.
pub open spec fn opcode_entry(code: u8) -> Option<(Seq<char>, u8, u8, AddressingMode)> {
    match code {
        0xA9 => Some(("LDA"@, 2, 2, AddressingMode::Immediate)),
        0xA5 => Some(("LDA"@, 2, 3, AddressingMode::ZeroPage)),
        0xB5 => Some(("LDA"@, 2, 4, AddressingMode::ZeroPage_X)),
        0xAD => Some(("LDA"@, 3, 4, AddressingMode::Absolute)),
        0xBD => Some(("LDA"@, 3, 4, AddressingMode::Absolute_X)),
        0xB9 => Some(("LDA"@, 3, 4, AddressingMode::Absolute_Y)),
        0xA1 => Some(("LDA"@, 2, 6, AddressingMode::Indirect_X)),
        0xB1 => Some(("LDA"@, 2, 5, AddressingMode::Indirect_Y)),
        0x85 => Some(("STA"@, 2, 3, AddressingMode::ZeroPage)),
        0x95 => Some(("STA"@, 2, 4, AddressingMode::ZeroPage_X)),
        0x8D => Some(("STA"@, 3, 4, AddressingMode::Absolute)),
        0x9D => Some(("STA"@, 3, 5, AddressingMode::Absolute_X)),
        0x99 => Some(("STA"@, 3, 5, AddressingMode::Absolute_Y)),
        0x81 => Some(("STA"@, 2, 6, AddressingMode::Indirect_X)),
        0x91 => Some(("STA"@, 2, 6, AddressingMode::Indirect_Y)),
        0x69 => Some(("ADC"@, 2, 2, AddressingMode::Immediate)),
        0x65 => Some(("ADC"@, 2, 3, AddressingMode::ZeroPage)),
        0x75 => Some(("ADC"@, 2, 4, AddressingMode::ZeroPage_X)),
        0x6D => Some(("ADC"@, 3, 4, AddressingMode::Absolute)),
        0x7D => Some(("ADC"@, 3, 4, AddressingMode::Absolute_X)),
        0x79 => Some(("ADC"@, 3, 4, AddressingMode::Absolute_Y)),
        0x61 => Some(("ADC"@, 2, 6, AddressingMode::Indirect_X)),
        0x71 => Some(("ADC"@, 2, 5, AddressingMode::Indirect_Y)),
        0xAA => Some(("TAX"@, 1, 2, AddressingMode::NoneAddressing)),
        0xE8 => Some(("INX"@, 1, 2, AddressingMode::NoneAddressing)),
        0x00 => Some(("BRK"@, 1, 7, AddressingMode::NoneAddressing)),
        _ => None,
    }
}

impl OpCode {
    /// Whether this descriptor is the table's entry `e` for opcode byte `code`.
    pub open spec fn describes(&self, code: u8, e: (Seq<char>, u8, u8, AddressingMode)) -> bool {
        &&& self.instruction == code
        &&& self.label@ == e.0
        &&& self.bytes == e.1
        &&& self.cycles == e.2
        &&& self.mode == e.3
    }

    fn new(instruction: u8, label: &str, bytes: u8, cycles: u8, mode: AddressingMode) -> (r:
        OpCode)
        ensures
            r.instruction == instruction,
            r.label@ == label@,
            r.bytes == bytes,
            r.cycles == cycles,
            r.mode == mode,
    {
        OpCode { instruction, label: label.to_string(), bytes, cycles, mode }
    }

    /// Looks up the descriptor of opcode byte `code`.
    pub fn lookup(code: u8) -> (r: Option<OpCode>)
        ensures
            match opcode_entry(code) {
                None => r is None,
                Some(e) => r is Some && r->Some_0.describes(code, e),
            },
    {
        let (label, bytes, cycles, mode) = match code {
            0xA9 => ("LDA", 2u8, 2u8, AddressingMode::Immediate),
            0xA5 => ("LDA", 2, 3, AddressingMode::ZeroPage),
            0xB5 => ("LDA", 2, 4, AddressingMode::ZeroPage_X),
            0xAD => ("LDA", 3, 4, AddressingMode::Absolute),
            0xBD => ("LDA", 3, 4, AddressingMode::Absolute_X),
            0xB9 => ("LDA", 3, 4, AddressingMode::Absolute_Y),
            0xA1 => ("LDA", 2, 6, AddressingMode::Indirect_X),
            0xB1 => ("LDA", 2, 5, AddressingMode::Indirect_Y),
            0x85 => ("STA", 2, 3, AddressingMode::ZeroPage),
            0x95 => ("STA", 2, 4, AddressingMode::ZeroPage_X),
            0x8D => ("STA", 3, 4, AddressingMode::Absolute),
            0x9D => ("STA", 3, 5, AddressingMode::Absolute_X),
            0x99 => ("STA", 3, 5, AddressingMode::Absolute_Y),
            0x81 => ("STA", 2, 6, AddressingMode::Indirect_X),
            0x91 => ("STA", 2, 6, AddressingMode::Indirect_Y),
            0x69 => ("ADC", 2, 2, AddressingMode::Immediate),
            0x65 => ("ADC", 2, 3, AddressingMode::ZeroPage),
            0x75 => ("ADC", 2, 4, AddressingMode::ZeroPage_X),
            0x6D => ("ADC", 3, 4, AddressingMode::Absolute),
            0x7D => ("ADC", 3, 4, AddressingMode::Absolute_X),
            0x79 => ("ADC", 3, 4, AddressingMode::Absolute_Y),
            0x61 => ("ADC", 2, 6, AddressingMode::Indirect_X),
            0x71 => ("ADC", 2, 5, AddressingMode::Indirect_Y),
            0xAA => ("TAX", 1, 2, AddressingMode::NoneAddressing),
            0xE8 => ("INX", 1, 2, AddressingMode::NoneAddressing),
            0x00 => ("BRK", 1, 7, AddressingMode::NoneAddressing),
            _ => {
                return None;
            },
        };
        Some(OpCode::new(code, label, bytes, cycles, mode))
    }
}

} // verus!
