//! Opcode metadata: for each opcode byte, the mnemonic it stands for, the length of
//! the instruction in bytes, its cycle count and its addressing mode.
//!
//! The dispatcher takes the metadata as an [`OpcodeTable`] value, so that another table
//! can stand in for [`OpcodeTable::standard`].
use vstd::prelude::*;

verus! {

use self::AddressingMode::{
    Absolute, Absolute_X, Absolute_Y, Immediate, Indirect_X, Indirect_Y, NoneAddressing, ZeroPage,
    ZeroPage_X,
};
use self::Mnemonic::{ADC, BRK, CLC, INX, JMP, LDA, NOP, SEC, STA, TAX};

/// How an instruction derives the address of its operand.
#[allow(non_camel_case_types)]
#[derive(Clone, Copy, Debug, PartialEq, Eq, Structural)]
pub enum AddressingMode {
    Immediate,
    ZeroPage,
    ZeroPage_X,
    ZeroPage_Y,
    Absolute,
    Absolute_X,
    Absolute_Y,
    Indirect_X,
    Indirect_Y,
    /// The instruction has no operand address.
    NoneAddressing,
    /// A branch offset: no operand address either.
    Relative,
}

impl AddressingMode {
    /// Whether the mode yields an effective operand address.
    pub open spec fn has_address(self) -> bool {
        !(self is NoneAddressing || self is Relative)
    }

    pub fn is_addressable(&self) -> (r: bool)
        ensures
            r == self.has_address(),
    {
        match self {
            AddressingMode::NoneAddressing | AddressingMode::Relative => false,
            _ => true,
        }
    }
}

#[derive(Clone, Copy, Debug, PartialEq, Eq, Structural)]
pub enum Mnemonic {
    ADC,
    BRK,
    CLC,
    INX,
    JMP,
    LDA,
    NOP,
    SEC,
    STA,
    TAX,
}

/// The metadata of one opcode byte.
#[derive(Clone, Copy, Debug, PartialEq, Eq, Structural)]
pub struct OpCode {
    pub code: u8,
    pub mnemonic: Mnemonic,
    /// Length of the instruction in bytes, the opcode byte included.
    pub len: u8,
    pub cycles: u8,
    pub mode: AddressingMode,
}

pub open spec fn opcode(code: u8, mnemonic: Mnemonic, len: u8, cycles: u8, mode: AddressingMode) -> OpCode {
    OpCode { code, mnemonic, len, cycles, mode }
}

impl OpCode {
    pub fn new(code: u8, mnemonic: Mnemonic, len: u8, cycles: u8, mode: AddressingMode) -> (r: OpCode)
        ensures
            r == opcode(code, mnemonic, len, cycles, mode),
    {
        OpCode { code, mnemonic, len, cycles, mode }
    }
}

/// The metadata of the processor, by opcode byte; `None` for a byte that is not an
/// opcode.
pub open spec fn standard_opcode(code: u8) -> Option<OpCode> {
    match code {
        0x00 => Some(opcode(0x00, BRK, 1, 7, NoneAddressing)),
        0xaa => Some(opcode(0xaa, TAX, 1, 2, NoneAddressing)),
        0xe8 => Some(opcode(0xe8, INX, 1, 2, NoneAddressing)),
        0xea => Some(opcode(0xea, NOP, 1, 2, NoneAddressing)),
        0x18 => Some(opcode(0x18, CLC, 1, 2, NoneAddressing)),
        0x38 => Some(opcode(0x38, SEC, 1, 2, NoneAddressing)),
        0x4c => Some(opcode(0x4c, JMP, 3, 3, Absolute)),
        0xa9 => Some(opcode(0xa9, LDA, 2, 2, Immediate)),
        0xa5 => Some(opcode(0xa5, LDA, 2, 3, ZeroPage)),
        0xb5 => Some(opcode(0xb5, LDA, 2, 4, ZeroPage_X)),
        0xad => Some(opcode(0xad, LDA, 3, 4, Absolute)),
        0xbd => Some(opcode(0xbd, LDA, 3, 4, Absolute_X)),
        0xb9 => Some(opcode(0xb9, LDA, 3, 4, Absolute_Y)),
        0xa1 => Some(opcode(0xa1, LDA, 2, 6, Indirect_X)),
        0xb1 => Some(opcode(0xb1, LDA, 2, 5, Indirect_Y)),
        0x85 => Some(opcode(0x85, STA, 2, 3, ZeroPage)),
        0x95 => Some(opcode(0x95, STA, 2, 4, ZeroPage_X)),
        0x8d => Some(opcode(0x8d, STA, 3, 4, Absolute)),
        0x9d => Some(opcode(0x9d, STA, 3, 5, Absolute_X)),
        0x99 => Some(opcode(0x99, STA, 3, 5, Absolute_Y)),
        0x81 => Some(opcode(0x81, STA, 2, 6, Indirect_X)),
        0x91 => Some(opcode(0x91, STA, 2, 6, Indirect_Y)),
        0x69 => Some(opcode(0x69, ADC, 2, 2, Immediate)),
        0x65 => Some(opcode(0x65, ADC, 2, 3, ZeroPage)),
        0x75 => Some(opcode(0x75, ADC, 2, 4, ZeroPage_X)),
        0x6d => Some(opcode(0x6d, ADC, 3, 4, Absolute)),
        0x7d => Some(opcode(0x7d, ADC, 3, 4, Absolute_X)),
        0x79 => Some(opcode(0x79, ADC, 3, 4, Absolute_Y)),
        0x61 => Some(opcode(0x61, ADC, 2, 6, Indirect_X)),
        0x71 => Some(opcode(0x71, ADC, 2, 5, Indirect_Y)),
        _ => None,
    }
}

/// The executable form of [`standard_opcode`].
fn standard_entry(code: u8) -> (r: Option<OpCode>)
    ensures
        r == standard_opcode(code),
{
    match code {
        0x00 => Some(OpCode::new(0x00, BRK, 1, 7, NoneAddressing)),
        0xaa => Some(OpCode::new(0xaa, TAX, 1, 2, NoneAddressing)),
        0xe8 => Some(OpCode::new(0xe8, INX, 1, 2, NoneAddressing)),
        0xea => Some(OpCode::new(0xea, NOP, 1, 2, NoneAddressing)),
        0x18 => Some(OpCode::new(0x18, CLC, 1, 2, NoneAddressing)),
        0x38 => Some(OpCode::new(0x38, SEC, 1, 2, NoneAddressing)),
        0x4c => Some(OpCode::new(0x4c, JMP, 3, 3, Absolute)),
        0xa9 => Some(OpCode::new(0xa9, LDA, 2, 2, Immediate)),
        0xa5 => Some(OpCode::new(0xa5, LDA, 2, 3, ZeroPage)),
        0xb5 => Some(OpCode::new(0xb5, LDA, 2, 4, ZeroPage_X)),
        0xad => Some(OpCode::new(0xad, LDA, 3, 4, Absolute)),
        0xbd => Some(OpCode::new(0xbd, LDA, 3, 4, Absolute_X)),
        0xb9 => Some(OpCode::new(0xb9, LDA, 3, 4, Absolute_Y)),
        0xa1 => Some(OpCode::new(0xa1, LDA, 2, 6, Indirect_X)),
        0xb1 => Some(OpCode::new(0xb1, LDA, 2, 5, Indirect_Y)),
        0x85 => Some(OpCode::new(0x85, STA, 2, 3, ZeroPage)),
        0x95 => Some(OpCode::new(0x95, STA, 2, 4, ZeroPage_X)),
        0x8d => Some(OpCode::new(0x8d, STA, 3, 4, Absolute)),
        0x9d => Some(OpCode::new(0x9d, STA, 3, 5, Absolute_X)),
        0x99 => Some(OpCode::new(0x99, STA, 3, 5, Absolute_Y)),
        0x81 => Some(OpCode::new(0x81, STA, 2, 6, Indirect_X)),
        0x91 => Some(OpCode::new(0x91, STA, 2, 6, Indirect_Y)),
        0x69 => Some(OpCode::new(0x69, ADC, 2, 2, Immediate)),
        0x65 => Some(OpCode::new(0x65, ADC, 2, 3, ZeroPage)),
        0x75 => Some(OpCode::new(0x75, ADC, 2, 4, ZeroPage_X)),
        0x6d => Some(OpCode::new(0x6d, ADC, 3, 4, Absolute)),
        0x7d => Some(OpCode::new(0x7d, ADC, 3, 4, Absolute_X)),
        0x79 => Some(OpCode::new(0x79, ADC, 3, 4, Absolute_Y)),
        0x61 => Some(OpCode::new(0x61, ADC, 2, 6, Indirect_X)),
        0x71 => Some(OpCode::new(0x71, ADC, 2, 5, Indirect_Y)),
        _ => None,
    }
}

/// The standard metadata as a sequence indexed by opcode byte.
pub open spec fn standard_table() -> Seq<Option<OpCode>> {
    Seq::new(256, |i: int| standard_opcode(i as u8))
}

/// A table of metadata with one slot for each of the 256 byte values.
pub struct OpcodeTable {
    entries: Vec<Option<OpCode>>,
}

impl View for OpcodeTable {
    type V = Seq<Option<OpCode>>;

    closed spec fn view(&self) -> Seq<Option<OpCode>> {
        self.entries@
    }
}

/// A table that the dispatcher can run on: one slot per byte value, and every
/// instruction at least one byte long.
pub open spec fn table_wf(table: Seq<Option<OpCode>>) -> bool {
    &&& table.len() == 256
    &&& forall|i: int| 0 <= i < 256 && (#[trigger] table[i]) is Some ==> table[i]->Some_0.len >= 1
}

impl OpcodeTable {
    pub open spec fn wf(&self) -> bool {
        table_wf(self@)
    }

    /// A table in which no byte is an opcode.
    pub fn empty() -> (t: OpcodeTable)
        ensures
            t.wf(),
            t@ == Seq::new(256, |i: int| None::<OpCode>),
    {
        let mut entries: Vec<Option<OpCode>> = Vec::new();
        let mut i: usize = 0;
        while i < 256
            invariant
                i <= 256,
                entries@ == Seq::new(i as nat, |k: int| None::<OpCode>),
            decreases 256 - i,
        {
            entries.push(None);
            i = i + 1;
            assert(entries@ =~= Seq::new(i as nat, |k: int| None::<OpCode>));
        }
        OpcodeTable { entries }
    }

    /// Records `op` as the metadata of the byte `op.code`, replacing what was there.
    pub fn insert(&mut self, op: OpCode)
        requires
            old(self).wf(),
            op.len >= 1,
        ensures
            final(self).wf(),
            final(self)@ == old(self)@.update(op.code as int, Some(op)),
    {
        self.entries.set(op.code as usize, Some(op));
    }

    /// The metadata of the byte `code`, if it is an opcode.
    pub fn lookup(&self, code: u8) -> (r: Option<OpCode>)
        requires
            self.wf(),
        ensures
            r == self@[code as int],
    {
        self.entries[code as usize]
    }

    /// The processor's own metadata: BRK, TAX, INX, NOP, CLC, SEC, JMP and the
    /// LDA, STA and ADC opcodes of every addressing mode they have.
    pub fn standard() -> (t: OpcodeTable)
        ensures
            t.wf(),
            t@ == standard_table(),
    {
        let mut entries: Vec<Option<OpCode>> = Vec::new();
        let mut i: usize = 0;
        while i < 256
            invariant
                i <= 256,
                entries@ == Seq::new(i as nat, |k: int| standard_opcode(k as u8)),
            decreases 256 - i,
        {
            entries.push(standard_entry(i as u8));
            i = i + 1;
            assert(entries@ =~= Seq::new(i as nat, |k: int| standard_opcode(k as u8)));
        }
        let t = OpcodeTable { entries };
        assert forall|k: int| 0 <= k < 256 && (#[trigger] t@[k]) is Some implies t@[k]->Some_0.len >= 1 by {
            assert(t@[k] == standard_opcode(k as u8));
        }
        t
    }
}

} // verus!
