use crate::error::{IoCause, VmError};
use crate::operand::Operand;
use vstd::prelude::*;

verus! {

/// The machine's state as mathematics: what every contract of the machine speaks of.
pub struct StateView {
    /// The 32768 memory cells.
    pub memory: Seq<u16>,
    /// The eight registers.
    pub registers: Seq<u16>,
    /// The stack, bottom first.
    pub stack: Seq<u16>,
    /// Address of the next word to fetch.
    pub pc: u16,
    /// Input bytes handed to the machine and not yet consumed.
    pub input: Seq<u8>,
    /// Bytes the program has written that the host has not yet collected.
    pub output: Seq<u8>,
}

/// A state together with what the operation that produced it reports.
pub struct Outcome<T> {
    pub state: StateView,
    pub result: Result<T, VmError>,
}

impl StateView {
    /// The invariant of the machine: memory has 32768 cells, there are eight
    /// registers and each holds a 15-bit value, and the program counter is a
    /// valid address.
    pub open spec fn wf(self) -> bool {
        &&& self.memory.len() == 32768
        &&& self.registers.len() == 8
        &&& forall|r: int| 0 <= r < 8 ==> #[trigger] self.registers[r] < 32768
        &&& self.pc < 32768
    }

    /// The state a fresh machine starts in: the program at address 0, zeros
    /// behind it, everything else empty or zero.
    pub open spec fn initial(code: Seq<u16>) -> StateView {
        StateView {
            memory: Seq::new(32768, |a: int| if a < code.len() { code[a] } else { 0u16 }),
            registers: Seq::new(8, |r: int| 0u16),
            stack: Seq::empty(),
            pc: 0,
            input: Seq::empty(),
            output: Seq::empty(),
        }
    }

    pub open spec fn with_pc(self, pc: u16) -> StateView {
        StateView { pc, ..self }
    }

    pub open spec fn with_stack(self, stack: Seq<u16>) -> StateView {
        StateView { stack, ..self }
    }

    pub open spec fn with_register(self, register: u8, value: u16) -> StateView {
        StateView { registers: self.registers.update(register as int, value), ..self }
    }

    pub open spec fn with_memory(self, address: u16, value: u16) -> StateView {
        StateView { memory: self.memory.update(address as int, value), ..self }
    }

    pub open spec fn with_input(self, input: Seq<u8>) -> StateView {
        StateView { input, ..self }
    }

    pub open spec fn with_output(self, output: Seq<u8>) -> StateView {
        StateView { output, ..self }
    }

    /// The value an operand stands for: a literal for itself, a register for
    /// what it holds.
    pub open spec fn resolve(self, operand: Operand) -> u16 {
        match operand {
            Operand::Literal(v) => v,
            Operand::Register(r) => self.registers[r as int],
        }
    }

    /// Fetching a word: the cell at the program counter, and the counter moved
    /// one cell on. The last cell cannot be fetched, because the counter could
    /// not move past it.
    pub open spec fn fetch(self) -> Outcome<u16> {
        if self.pc < 32767 {
            Outcome { state: self.with_pc((self.pc + 1) as u16), result: Ok(self.memory[self.pc as int]) }
        } else {
            Outcome { state: self, result: Err(VmError::InvalidAddress(32768)) }
        }
    }

    /// Reading a memory cell.
    pub open spec fn load(self, address: u16) -> Result<u16, VmError> {
        if address < 32768 {
            Ok(self.memory[address as int])
        } else {
            Err(VmError::InvalidAddress(address))
        }
    }

    /// Writing a memory cell: the address must exist and the value fit in 15 bits.
    pub open spec fn store(self, address: u16, value: u16) -> Outcome<()> {
        if address >= 32768 {
            Outcome { state: self, result: Err(VmError::InvalidAddress(address)) }
        } else if value >= 32768 {
            Outcome { state: self, result: Err(VmError::InvalidOperand(value)) }
        } else {
            Outcome { state: self.with_memory(address, value), result: Ok(()) }
        }
    }

    /// Setting a register: the value must fit in 15 bits.
    pub open spec fn assign(self, register: u8, value: u16) -> Outcome<()> {
        if value >= 32768 {
            Outcome { state: self, result: Err(VmError::InvalidOperand(value)) }
        } else {
            Outcome { state: self.with_register(register, value), result: Ok(()) }
        }
    }

    /// Setting the program counter: the target must be a valid address.
    pub open spec fn jump(self, target: u16) -> Outcome<()> {
        if target >= 32768 {
            Outcome { state: self, result: Err(VmError::InvalidAddress(target)) }
        } else {
            Outcome { state: self.with_pc(target), result: Ok(()) }
        }
    }

    /// Taking the top of the stack.
    pub open spec fn pop(self) -> Outcome<u16> {
        if self.stack.len() == 0 {
            Outcome { state: self, result: Err(VmError::StackUnderflow) }
        } else {
            Outcome { state: self.with_stack(self.stack.drop_last()), result: Ok(self.stack.last()) }
        }
    }

    /// Consuming the next byte of input.
    pub open spec fn read_char(self) -> Outcome<u8> {
        if self.input.len() == 0 {
            Outcome { state: self, result: Err(VmError::IoError(IoCause::EndOfInput)) }
        } else {
            Outcome { state: self.with_input(self.input.drop_first()), result: Ok(self.input[0]) }
        }
    }
}

} // verus!
