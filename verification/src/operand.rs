use crate::error::VmError;
use vstd::prelude::*;

verus! {

/// A 15-bit value as the machine computes with it.
pub type Literal = u16;

/// The number of one of the eight registers.
pub type Register = u8;

/// One decoded operand word: a value used as it is, or a reference to a register.
#[derive(Debug, Clone, Copy, PartialEq, Eq, Structural)]
pub enum Operand {
    Literal(Literal),
    Register(Register),
}

/// What an operand word stands for: below 32768 a literal, the next eight
/// words the registers in order, anything above is no operand.
pub open spec fn operand_of_word(word: u16) -> Result<Operand, VmError> {
    if word < 32768 {
        Ok(Operand::Literal(word))
    } else if word < 32776 {
        Ok(Operand::Register((word - 32768) as u8))
    } else {
        Err(VmError::InvalidOperand(word))
    }
}

impl Operand {
    /// If the operand names a register, it is one of the eight.
    pub open spec fn names_register(self) -> bool {
        self matches Operand::Register(r) ==> r < 8
    }

    /// A literal fits in 15 bits, a register number names one of the eight registers.
    pub open spec fn wf(self) -> bool {
        match self {
            Operand::Literal(v) => v < 32768,
            Operand::Register(r) => r < 8,
        }
    }
}

impl TryFrom<u16> for Operand {
    type Error = VmError;

    fn try_from(value: u16) -> (res: Result<Self, Self::Error>)
        ensures
            res == operand_of_word(value),
            res is Ok ==> res->Ok_0.wf(),
    {
        if value < 32768 {
            Ok(Operand::Literal(value))
        } else if value < 32776 {
            Ok(Operand::Register((value - 32768) as u8))
        } else {
            Err(VmError::InvalidOperand(value))
        }
    }
}

impl vstd::std_specs::convert::TryFromSpecImpl<u16> for Operand {
    open spec fn obeys_try_from_spec() -> bool {
        true
    }

    open spec fn try_from_spec(v: u16) -> Result<Self, VmError> {
        operand_of_word(v)
    }
}

} // verus!
