//! The mathematical model of the machine: its state, the effective address of each
//! addressing mode, the effect of each instruction, one fetch-decode-execute step and
//! a whole run.
use vstd::prelude::*;
use crate::opcodes::{AddressingMode, Mnemonic, OpCode, table_wf};
use crate::status::{STATUS_CARRY, STATUS_OVERFLOW, STATUS_NEGATIVE, flag_on, set_flag, zn_status};

verus! {

/// Where a program image is placed, and where execution starts after a load.
pub const LOAD_ADDRESS: u16 = 0x8000;

/// The two-byte little-endian slot that holds the entry address.
pub const RESET_VECTOR: u16 = 0xfffc;

/// The registers and the memory of the processor.
pub struct CpuState {
    pub register_a: u8,
    pub register_x: u8,
    pub register_y: u8,
    pub status: u8,
    pub program_counter: u16,
    /// The 64 KiB address space, one byte per address.
    pub memory: Seq<u8>,
}

/// A fatal condition that ends a run. Each names the opcode byte at fault and the
/// address it was fetched from.
#[derive(Clone, Copy, Debug, PartialEq, Eq, Structural)]
pub enum CpuError {
    /// The byte is not an opcode of the metadata.
    UnrecognizedOpcode { code: u8, program_counter: u16 },
    /// The byte is an opcode of the metadata, but no handler executes its mnemonic.
    NotImplemented { code: u8, program_counter: u16 },
    /// The metadata gives an instruction that needs an operand address a mode that
    /// has none.
    UnsupportedAddressingMode { code: u8, program_counter: u16 },
    /// The program counter would move past the end of the address space.
    CounterOverflow { code: u8, program_counter: u16 },
}

/// What a step that did not fail leads to.
#[derive(Clone, Copy, Debug, PartialEq, Eq, Structural)]
pub enum StepOutcome {
    /// An instruction was executed; the run goes on.
    Continue,
    /// BRK was fetched; the run ends.
    Break,
}

/// The little-endian word at `addr` and `addr + 1`, the second address wrapping
/// around the 16-bit address space.
pub open spec fn read16(memory: Seq<u8>, addr: u16) -> u16 {
    (memory[addr as int] as int + 256 * memory[(addr as int + 1) % 0x10000] as int) as u16
}

/// `memory` with the word `value` stored little-endian at `addr` and `addr + 1`.
pub open spec fn write16(memory: Seq<u8>, addr: u16, value: u16) -> Seq<u8> {
    memory.update(addr as int, (value % 256) as u8).update(
        (addr as int + 1) % 0x10000,
        (value / 256) as u8,
    )
}

/// The little-endian word at `ptr` and `ptr + 1`, the second address wrapping
/// within page zero.
pub open spec fn zero_page_word(memory: Seq<u8>, ptr: u8) -> u16 {
    (memory[ptr as int] as int + 256 * memory[(ptr as int + 1) % 256] as int) as u16
}

/// The effective operand address of `mode`, with the operand bytes at the program
/// counter. Modes without an address give 0; nothing resolves them.
pub open spec fn operand_address(s: CpuState, mode: AddressingMode) -> u16 {
    let pc = s.program_counter;
    let byte = s.memory[pc as int];
    match mode {
        AddressingMode::Immediate => pc,
        AddressingMode::ZeroPage => byte as u16,
        AddressingMode::ZeroPage_X => ((byte + s.register_x) % 256) as u16,
        AddressingMode::ZeroPage_Y => ((byte + s.register_y) % 256) as u16,
        AddressingMode::Absolute => read16(s.memory, pc),
        AddressingMode::Absolute_X => ((read16(s.memory, pc) + s.register_x) % 0x10000) as u16,
        AddressingMode::Absolute_Y => ((read16(s.memory, pc) + s.register_y) % 0x10000) as u16,
        AddressingMode::Indirect_X => zero_page_word(s.memory, ((byte + s.register_x) % 256) as u8),
        AddressingMode::Indirect_Y => ((zero_page_word(s.memory, byte) + s.register_y) % 0x10000) as u16,
        AddressingMode::NoneAddressing | AddressingMode::Relative => 0,
    }
}

/// LDA: the accumulator takes the operand; Zero and Negative follow it.
pub open spec fn lda_state(s: CpuState, mode: AddressingMode) -> CpuState {
    let value = s.memory[operand_address(s, mode) as int];
    CpuState { register_a: value, status: zn_status(s.status, value), ..s }
}

/// STA: the accumulator is stored at the operand address; no flag changes.
pub open spec fn sta_state(s: CpuState, mode: AddressingMode) -> CpuState {
    CpuState { memory: s.memory.update(operand_address(s, mode) as int, s.register_a), ..s }
}

/// The unsigned sum that ADC computes: accumulator, operand and the Carry flag.
pub open spec fn adc_sum(a: u8, operand: u8, status: u8) -> int {
    a + operand + if flag_on(status, STATUS_CARRY) { 1int } else { 0int }
}

/// ADC's Carry, taken as two 8-bit additions (operand plus carry-in, then the
/// accumulator plus that, modulo 256): the sum exceeds 0xff exactly when one of the
/// two additions overflows 8 bits.
pub proof fn lemma_adc_carry_two_steps(a: u8, operand: u8, carry_in: u8)
    requires
        carry_in <= 1,
    ensures
        (a + operand + carry_in > 0xff) == (operand + carry_in > 0xff || a + (operand + carry_in)
            % 256 > 0xff),
{
}

/// ADC: the accumulator takes the sum modulo 256; Carry is set iff the sum exceeds
/// 0xff; Overflow is set iff the result's sign differs from the signs of both the
/// operand and the former accumulator; Zero and Negative follow the result.
pub open spec fn adc_state(s: CpuState, mode: AddressingMode) -> CpuState {
    let operand = s.memory[operand_address(s, mode) as int];
    let sum = adc_sum(s.register_a, operand, s.status);
    let result = (sum % 256) as u8;
    let overflow = (result ^ operand) & (result ^ s.register_a) & STATUS_NEGATIVE != 0;
    let status = set_flag(set_flag(s.status, STATUS_CARRY, sum > 0xff), STATUS_OVERFLOW, overflow);
    CpuState { register_a: result, status: zn_status(status, result), ..s }
}

/// TAX: X takes the accumulator; Zero and Negative follow it.
pub open spec fn tax_state(s: CpuState) -> CpuState {
    CpuState { register_x: s.register_a, status: zn_status(s.status, s.register_a), ..s }
}

/// INX: X is incremented modulo 256; Zero and Negative follow it.
pub open spec fn inx_state(s: CpuState) -> CpuState {
    let x = ((s.register_x + 1) % 256) as u8;
    CpuState { register_x: x, status: zn_status(s.status, x), ..s }
}

/// The mnemonics that have a handler (BRK is the dispatcher's own).
pub open spec fn has_handler(m: Mnemonic) -> bool {
    m is LDA || m is STA || m is ADC || m is TAX || m is INX
}

/// The mnemonics whose handler resolves an operand address.
pub open spec fn needs_address(m: Mnemonic) -> bool {
    m is LDA || m is STA || m is ADC
}

/// The effect of the handler of `m`, for a mnemonic that has one.
pub open spec fn handle(s: CpuState, m: Mnemonic, mode: AddressingMode) -> CpuState {
    match m {
        Mnemonic::LDA => lda_state(s, mode),
        Mnemonic::STA => sta_state(s, mode),
        Mnemonic::ADC => adc_state(s, mode),
        Mnemonic::TAX => tax_state(s),
        Mnemonic::INX => inx_state(s),
        _ => s,
    }
}

/// One fetch-decode-execute step on the metadata `table`: the state it leads to and
/// its outcome. The opcode byte is fetched and the counter moves past it; a byte
/// that is no opcode, a mnemonic without a handler and a mode without an address
/// are fatal; BRK ends the run; otherwise the handler runs and, when it left the
/// counter where it was, the counter skips the instruction's operand bytes.
pub open spec fn next_step(s: CpuState, table: Seq<Option<OpCode>>) -> (CpuState, Result<StepOutcome, CpuError>) {
    let at = s.program_counter;
    let code = s.memory[at as int];
    if at == 0xffff {
        (s, Err(CpuError::CounterOverflow { code, program_counter: at }))
    } else {
        let fetched = CpuState { program_counter: (at + 1) as u16, ..s };
        match table[code as int] {
            None => (fetched, Err(CpuError::UnrecognizedOpcode { code, program_counter: at })),
            Some(op) => {
                if op.mnemonic is BRK {
                    (fetched, Ok(StepOutcome::Break))
                } else if !has_handler(op.mnemonic) {
                    (fetched, Err(CpuError::NotImplemented { code, program_counter: at }))
                } else if needs_address(op.mnemonic) && !op.mode.has_address() {
                    (fetched, Err(CpuError::UnsupportedAddressingMode { code, program_counter: at }))
                } else {
                    let done = handle(fetched, op.mnemonic, op.mode);
                    let next_pc = done.program_counter + op.len - 1;
                    if done.program_counter != fetched.program_counter {
                        (done, Ok(StepOutcome::Continue))
                    } else if next_pc > 0xffff {
                        (done, Err(CpuError::CounterOverflow { code, program_counter: at }))
                    } else {
                        (CpuState { program_counter: next_pc as u16, ..done }, Ok(StepOutcome::Continue))
                    }
                }
            },
        }
    }
}

/// A step that goes on moves the program counter forward.
pub proof fn lemma_step_advances(s: CpuState, table: Seq<Option<OpCode>>)
    requires
        table_wf(table),
        next_step(s, table).1 == Ok::<StepOutcome, CpuError>(StepOutcome::Continue),
    ensures
        next_step(s, table).0.program_counter > s.program_counter,
{
    let code = s.memory[s.program_counter as int];
    assert(table[code as int] is Some);
}

/// Steps from `s` until BRK or a fatal condition: the final state, and `Ok` when the
/// run ended on BRK or the condition that ended it.
pub open spec fn run_from(s: CpuState, table: Seq<Option<OpCode>>) -> (CpuState, Result<(), CpuError>)
    decreases 0x10000 - s.program_counter when table_wf(table)
{
    let step = next_step(s, table);
    match step.1 {
        Ok(StepOutcome::Continue) => {
            proof {
                lemma_step_advances(s, table);
            }
            run_from(step.0, table)
        },
        Ok(StepOutcome::Break) => (step.0, Ok(())),
        Err(e) => (step.0, Err(e)),
    }
}

/// The state after a program image is placed at the load address and the load
/// address is written into the reset vector.
pub open spec fn load_state(s: CpuState, program: Seq<u8>) -> CpuState {
    let placed = Seq::new(
        0x10000,
        |i: int|
            if LOAD_ADDRESS <= i < LOAD_ADDRESS + program.len() {
                program[i - LOAD_ADDRESS]
            } else {
                s.memory[i]
            },
    );
    CpuState { memory: write16(placed, RESET_VECTOR, LOAD_ADDRESS), ..s }
}

/// The state after a reset: accumulator, X and status cleared, the counter taken
/// from the reset vector. Y is left as it was.
pub open spec fn reset_state(s: CpuState) -> CpuState {
    CpuState {
        register_a: 0,
        register_x: 0,
        status: 0,
        program_counter: read16(s.memory, RESET_VECTOR),
        ..s
    }
}

/// A byte that is not an opcode of the metadata ends the run at once with
/// `UnrecognizedOpcode`, naming the byte and its address: the accumulator, X, Y, the
/// status and the memory are as they were, and the counter has only moved past the
/// byte that was fetched.
pub proof fn lemma_unrecognized_opcode_halts(s: CpuState, table: Seq<Option<OpCode>>)
    requires
        table_wf(table),
        s.program_counter < 0xffff,
        table[s.memory[s.program_counter as int] as int] is None,
    ensures
        run_from(s, table) == (
            CpuState { program_counter: (s.program_counter + 1) as u16, ..s },
            Err::<(), CpuError>(CpuError::UnrecognizedOpcode {
                code: s.memory[s.program_counter as int],
                program_counter: s.program_counter,
            }),
        ),
{
}

} // verus!
