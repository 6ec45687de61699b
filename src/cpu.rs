//! The executable processor: registers, memory, the addressing-mode resolver, the
//! instruction handlers and the dispatcher, each proved to follow the model of
//! [`crate::state`].
use vstd::prelude::*;
use crate::memory::Memory;
use crate::opcodes::{AddressingMode, Mnemonic, OpcodeTable, standard_table};
use crate::state::{
    CpuError, CpuState, StepOutcome, LOAD_ADDRESS, RESET_VECTOR, adc_state, inx_state, lda_state,
    lemma_step_advances, needs_address,
    load_state, next_step, operand_address, read16, reset_state, run_from, sta_state, tax_state,
    write16,
};
use crate::status::{
    STATUS_CARRY, STATUS_KEEP_ON_ZN, STATUS_NEGATIVE, STATUS_OVERFLOW, STATUS_ZERO, flag_on,
    lemma_zero_negative_update, zn_status,
};

verus! {

/// Whether the handler of `m` resolves an operand address.
fn reads_operand(m: Mnemonic) -> (r: bool)
    ensures
        r == needs_address(m),
{
    matches!(m, Mnemonic::LDA | Mnemonic::STA | Mnemonic::ADC)
}

/// A 6502-class processor with its own 64 KiB of memory.
pub struct CPU {
    pub register_a: u8,
    pub register_x: u8,
    pub register_y: u8,
    pub status: u8,
    pub program_counter: u16,
    pub memory: Memory,
}

impl View for CPU {
    type V = CpuState;

    open spec fn view(&self) -> CpuState {
        CpuState {
            register_a: self.register_a,
            register_x: self.register_x,
            register_y: self.register_y,
            status: self.status,
            program_counter: self.program_counter,
            memory: self.memory@,
        }
    }
}

impl CPU {
    /// A processor with every register and every byte of memory zero.
    pub fn new() -> (cpu: CPU)
        ensures
            cpu@ == (CpuState {
                register_a: 0,
                register_x: 0,
                register_y: 0,
                status: 0,
                program_counter: 0,
                memory: Seq::new(0x10000, |i: int| 0u8),
            }),
    {
        CPU {
            register_a: 0,
            register_x: 0,
            register_y: 0,
            status: 0,
            program_counter: 0,
            memory: Memory::new(),
        }
    }

    pub fn mem_read(&self, addr: u16) -> (r: u8)
        ensures
            r == self@.memory[addr as int],
    {
        self.memory.read(addr)
    }

    pub fn mem_write(&mut self, addr: u16, data: u8)
        ensures
            final(self)@ == (CpuState { memory: old(self)@.memory.update(addr as int, data), ..old(self)@ }),
    {
        self.memory.write(addr, data);
    }

    /// The little-endian word at `pos` and `pos + 1`; the second address wraps to 0.
    pub fn mem_read_u16(&self, pos: u16) -> (r: u16)
        ensures
            r == read16(self@.memory, pos),
    {
        self.memory.read_u16(pos)
    }

    /// Stores `data` little-endian at `pos` and `pos + 1`; the second address wraps
    /// to 0.
    pub fn mem_write_u16(&mut self, pos: u16, data: u16)
        ensures
            final(self)@ == (CpuState { memory: write16(old(self)@.memory, pos, data), ..old(self)@ }),
    {
        self.memory.write_u16(pos, data);
    }

    /// The effective address of the operand of an instruction in `mode`, whose
    /// operand bytes start at the program counter.
    pub fn get_operand_address(&self, mode: &AddressingMode) -> (r: u16)
        requires
            mode.has_address(),
        ensures
            r == operand_address(self@, *mode),
    {
        let pc = self.program_counter;
        match mode {
            AddressingMode::Immediate => pc,
            AddressingMode::ZeroPage => self.mem_read(pc) as u16,
            AddressingMode::Absolute => self.mem_read_u16(pc),
            AddressingMode::ZeroPage_X => {
                let pos = self.mem_read(pc);
                pos.wrapping_add(self.register_x) as u16
            },
            AddressingMode::ZeroPage_Y => {
                let pos = self.mem_read(pc);
                pos.wrapping_add(self.register_y) as u16
            },
            AddressingMode::Absolute_X => {
                let base = self.mem_read_u16(pc);
                base.wrapping_add(self.register_x as u16)
            },
            AddressingMode::Absolute_Y => {
                let base = self.mem_read_u16(pc);
                base.wrapping_add(self.register_y as u16)
            },
            AddressingMode::Indirect_X => {
                let base = self.mem_read(pc);
                let ptr = base.wrapping_add(self.register_x);
                let lo = self.mem_read(ptr as u16) as u16;
                let hi = self.mem_read(ptr.wrapping_add(1) as u16) as u16;
                hi * 256 + lo
            },
            AddressingMode::Indirect_Y => {
                let base = self.mem_read(pc);
                let lo = self.mem_read(base as u16) as u16;
                let hi = self.mem_read(base.wrapping_add(1) as u16) as u16;
                let deref_base = hi * 256 + lo;
                deref_base.wrapping_add(self.register_y as u16)
            },
            AddressingMode::NoneAddressing | AddressingMode::Relative => 0,
        }
    }

    /// Sets Zero iff `result` is zero and Negative iff bit 7 of `result` is one;
    /// every other flag stays as it was.
    pub fn update_zero_and_negative_flags(&mut self, result: u8)
        ensures
            final(self)@ == (CpuState { status: zn_status(old(self).status, result), ..old(self)@ }),
            flag_on(final(self).status, STATUS_ZERO) == (result == 0),
            flag_on(final(self).status, STATUS_NEGATIVE) == (result >= 0x80),
            final(self).status & STATUS_KEEP_ON_ZN == old(self).status & STATUS_KEEP_ON_ZN,
    {
        proof {
            lemma_zero_negative_update(self.status, result);
        }
        let zero = if result == 0 {
            STATUS_ZERO
        } else {
            0u8
        };
        self.status = (self.status & STATUS_KEEP_ON_ZN) | zero | (result & STATUS_NEGATIVE);
    }

    /// LDA: loads the operand into the accumulator.
    pub fn lda(&mut self, mode: &AddressingMode)
        requires
            mode.has_address(),
        ensures
            final(self)@ == lda_state(old(self)@, *mode),
    {
        let addr = self.get_operand_address(mode);
        let value = self.mem_read(addr);
        self.register_a = value;
        self.update_zero_and_negative_flags(value);
    }

    /// STA: stores the accumulator at the operand address.
    pub fn sta(&mut self, mode: &AddressingMode)
        requires
            mode.has_address(),
        ensures
            final(self)@ == sta_state(old(self)@, *mode),
    {
        let addr = self.get_operand_address(mode);
        let value = self.register_a;
        self.mem_write(addr, value);
    }

    /// ADC: adds the operand and the Carry flag to the accumulator.
    pub fn adc(&mut self, mode: &AddressingMode)
        requires
            mode.has_address(),
        ensures
            final(self)@ == adc_state(old(self)@, *mode),
    {
        let addr = self.get_operand_address(mode);
        let value = self.mem_read(addr);
        let a = self.register_a;
        let carry_in: u8 = self.status & STATUS_CARRY;
        proof {
            let s = self.status;
            assert(s & 1u8 == 0u8 || s & 1u8 == 1u8) by (bit_vector);
        }
        let rhs: u16 = value as u16 + carry_in as u16;
        let sum: u16 = a as u16 + rhs;
        let result: u8 = (sum % 256) as u8;

        if sum > 0xff {
            self.status = self.status | STATUS_CARRY;
        } else {
            self.status = self.status & !STATUS_CARRY;
        }

        if (result ^ value) & (result ^ a) & STATUS_NEGATIVE != 0 {
            self.status = self.status | STATUS_OVERFLOW;
        } else {
            self.status = self.status & !STATUS_OVERFLOW;
        }

        self.register_a = result;
        self.update_zero_and_negative_flags(result);
    }

    /// TAX: copies the accumulator into X.
    pub fn tax(&mut self)
        ensures
            final(self)@ == tax_state(old(self)@),
    {
        let value = self.register_a;
        self.register_x = value;
        self.update_zero_and_negative_flags(value);
    }

    /// INX: increments X, wrapping from 0xff to 0.
    pub fn inx(&mut self)
        ensures
            final(self)@ == inx_state(old(self)@),
    {
        let x = self.register_x.wrapping_add(1);
        self.register_x = x;
        self.update_zero_and_negative_flags(x);
    }

    /// Executes one instruction: fetches the opcode byte, looks it up in `table`,
    /// runs its handler and moves the counter past the operand bytes.
    pub fn step(&mut self, table: &OpcodeTable) -> (r: Result<StepOutcome, CpuError>)
        requires
            table.wf(),
        ensures
            (final(self)@, r) == next_step(old(self)@, table@),
    {
        let at = self.program_counter;
        let code = self.mem_read(at);
        if at == 0xffff {
            return Err(CpuError::CounterOverflow { code, program_counter: at });
        }
        self.program_counter = at + 1;
        let op = match table.lookup(code) {
            Some(op) => op,
            None => {
                return Err(CpuError::UnrecognizedOpcode { code, program_counter: at });
            },
        };
        if reads_operand(op.mnemonic) && !op.mode.is_addressable() {
            return Err(CpuError::UnsupportedAddressingMode { code, program_counter: at });
        }
        let program_counter_state = self.program_counter;
        match op.mnemonic {
            Mnemonic::BRK => {
                return Ok(StepOutcome::Break);
            },
            Mnemonic::LDA => self.lda(&op.mode),
            Mnemonic::STA => self.sta(&op.mode),
            Mnemonic::ADC => self.adc(&op.mode),
            Mnemonic::TAX => self.tax(),
            Mnemonic::INX => self.inx(),
            _ => {
                return Err(CpuError::NotImplemented { code, program_counter: at });
            },
        }
        if self.program_counter == program_counter_state {
            let next: u32 = program_counter_state as u32 + op.len as u32 - 1;
            if next > 0xffff {
                return Err(CpuError::CounterOverflow { code, program_counter: at });
            }
            self.program_counter = next as u16;
        }
        Ok(StepOutcome::Continue)
    }

    /// Runs the fetch-decode-execute loop on the metadata `table` until BRK (`Ok`) or a
    /// fatal condition (`Err`).
    pub fn run_with(&mut self, table: &OpcodeTable) -> (r: Result<(), CpuError>)
        requires
            table.wf(),
        ensures
            (final(self)@, r) == run_from(old(self)@, table@),
    {
        loop
            invariant
                table.wf(),
                run_from(self@, table@) == run_from(old(self)@, table@),
            decreases 0x10000 - self.program_counter,
        {
            let ghost before = self@;
            match self.step(table) {
                Ok(StepOutcome::Continue) => {
                    proof {
                        lemma_step_advances(before, table@);
                    }
                },
                Ok(StepOutcome::Break) => {
                    return Ok(());
                },
                Err(e) => {
                    return Err(e);
                },
            }
        }
    }

    /// Runs the loop on the processor's own metadata, [`OpcodeTable::standard`].
    pub fn run(&mut self) -> (r: Result<(), CpuError>)
        ensures
            (final(self)@, r) == run_from(old(self)@, standard_table()),
    {
        let table = OpcodeTable::standard();
        self.run_with(&table)
    }

    /// Copies `program` into memory at the load address and writes the load address
    /// into the reset vector.
    pub fn load(&mut self, program: Vec<u8>)
        requires
            program.len() <= 0x8000,
        ensures
            final(self)@ == load_state(old(self)@, program@),
    {
        proof {
            old(self).memory.lemma_size();
        }
        let mut i: usize = 0;
        while i < program.len()
            invariant
                i <= program.len() <= 0x8000,
                self@ == (CpuState { memory: self@.memory, ..old(self)@ }),
                self@.memory.len() == 0x10000,
                forall|k: int|
                    0 <= k < 0x10000 ==> #[trigger] self@.memory[k] == if LOAD_ADDRESS <= k < LOAD_ADDRESS + i {
                        program@[k - LOAD_ADDRESS]
                    } else {
                        old(self)@.memory[k]
                    },
            decreases program.len() - i,
        {
            self.mem_write(LOAD_ADDRESS + i as u16, program[i]);
            i = i + 1;
        }
        let ghost placed = self@.memory;
        assert(placed =~= Seq::new(
            0x10000,
            |k: int|
                if LOAD_ADDRESS <= k < LOAD_ADDRESS + program@.len() {
                    program@[k - LOAD_ADDRESS]
                } else {
                    old(self)@.memory[k]
                },
        ));
        self.mem_write_u16(RESET_VECTOR, LOAD_ADDRESS);
    }

    /// Clears the accumulator, X and the status, and sets the counter from the reset
    /// vector. Y is deliberately left as it was, unlike A and X; a caller that needs
    /// it cleared sets it itself.
    pub fn reset(&mut self)
        ensures
            final(self)@ == reset_state(old(self)@),
    {
        self.register_a = 0;
        self.register_x = 0;
        self.status = 0;
        self.program_counter = self.mem_read_u16(RESET_VECTOR);
    }

    /// Loads `program`, resets and runs it on the processor's own metadata.
    pub fn load_and_run(&mut self, program: Vec<u8>) -> (r: Result<(), CpuError>)
        requires
            program.len() <= 0x8000,
        ensures
            (final(self)@, r) == run_from(reset_state(load_state(old(self)@, program@)), standard_table()),
    {
        self.load(program);
        self.reset();
        self.run()
    }
}

} // verus!
