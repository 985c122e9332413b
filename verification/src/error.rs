use crate::operand::Operand;
use vstd::prelude::*;

verus! {

/// Why the machine could not obtain a byte of input.
#[derive(Debug, Clone, Copy, PartialEq, Eq, Structural)]
pub enum IoCause {
    /// The input source has no more bytes to give.
    EndOfInput,
    /// The host tried to read a line and failed.
    ReadFailed,
}

/// Everything that can abort the machine.
#[derive(Debug, Clone, Copy, PartialEq, Eq, Structural)]
pub enum VmError {
    /// The word fetched as an opcode is not one of the machine's opcodes.
    InvalidOpcode(u16),
    /// A word is outside the range a value or an operand may take.
    InvalidOperand(u16),
    /// A literal stands where an instruction needs a register.
    UnexpectedOperand(Operand),
    /// A `pop` instruction found the stack empty.
    StackUnderflow,
    /// A memory access or a jump names an address outside the address space.
    InvalidAddress(u16),
    /// A `mod` instruction has a zero divisor.
    DivisionByZero,
    /// A byte of input was needed and could not be had.
    IoError(IoCause),
}

/// Why a byte string is no program.
#[derive(Debug, Clone, Copy, PartialEq, Eq, Structural)]
pub enum LoadError {
    /// The number of bytes is odd: the last word is incomplete.
    OddLength,
    /// There are more words than memory has cells.
    TooLong,
}

} // verus!
