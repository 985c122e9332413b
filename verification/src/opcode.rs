use crate::error::VmError;
use vstd::prelude::*;

verus! {

/// The operation an instruction performs, as named by its first word.
#[derive(Debug, Clone, Copy, PartialEq, Eq, Structural)]
pub enum Opcode {
    Halt,
    SetReg,
    Push,
    Pop,
    Eq,
    Gt,
    Jmp,
    Jt,
    Jf,
    Add,
    Mult,
    Mod,
    And,
    Or,
    Not,
    Rmem,
    Wmem,
    Call,
    Ret,
    Out,
    In,
    NoOp,
}

impl Opcode {
    /// The word that encodes this opcode.
    pub open spec fn word(self) -> u16 {
        match self {
            Opcode::Halt => 0,
            Opcode::SetReg => 1,
            Opcode::Push => 2,
            Opcode::Pop => 3,
            Opcode::Eq => 4,
            Opcode::Gt => 5,
            Opcode::Jmp => 6,
            Opcode::Jt => 7,
            Opcode::Jf => 8,
            Opcode::Add => 9,
            Opcode::Mult => 10,
            Opcode::Mod => 11,
            Opcode::And => 12,
            Opcode::Or => 13,
            Opcode::Not => 14,
            Opcode::Rmem => 15,
            Opcode::Wmem => 16,
            Opcode::Call => 17,
            Opcode::Ret => 18,
            Opcode::Out => 19,
            Opcode::In => 20,
            Opcode::NoOp => 21,
        }
    }

    /// How many operand words follow the opcode word.
    pub open spec fn operand_count(self) -> nat {
        match self {
            Opcode::Halt | Opcode::Ret | Opcode::NoOp => 0,
            Opcode::Push | Opcode::Pop | Opcode::Jmp | Opcode::Call | Opcode::Out | Opcode::In => 1,
            Opcode::SetReg | Opcode::Jt | Opcode::Jf | Opcode::Not | Opcode::Rmem | Opcode::Wmem => 2,
            Opcode::Eq
            | Opcode::Gt
            | Opcode::Add
            | Opcode::Mult
            | Opcode::Mod
            | Opcode::And
            | Opcode::Or => 3,
        }
    }

    /// Whether the first operand names the register that receives the result.
    pub open spec fn has_destination(self) -> bool {
        match self {
            Opcode::SetReg
            | Opcode::Pop
            | Opcode::Eq
            | Opcode::Gt
            | Opcode::Add
            | Opcode::Mult
            | Opcode::Mod
            | Opcode::And
            | Opcode::Or
            | Opcode::Not
            | Opcode::Rmem
            | Opcode::In => true,
            _ => false,
        }
    }
}

/// The opcode a word encodes. The words 0 to 21 encode one each; no other
/// word is an opcode.
pub open spec fn opcode_of_word(word: u16) -> Result<Opcode, VmError> {
    match word {
        0 => Ok(Opcode::Halt),
        1 => Ok(Opcode::SetReg),
        2 => Ok(Opcode::Push),
        3 => Ok(Opcode::Pop),
        4 => Ok(Opcode::Eq),
        5 => Ok(Opcode::Gt),
        6 => Ok(Opcode::Jmp),
        7 => Ok(Opcode::Jt),
        8 => Ok(Opcode::Jf),
        9 => Ok(Opcode::Add),
        10 => Ok(Opcode::Mult),
        11 => Ok(Opcode::Mod),
        12 => Ok(Opcode::And),
        13 => Ok(Opcode::Or),
        14 => Ok(Opcode::Not),
        15 => Ok(Opcode::Rmem),
        16 => Ok(Opcode::Wmem),
        17 => Ok(Opcode::Call),
        18 => Ok(Opcode::Ret),
        19 => Ok(Opcode::Out),
        20 => Ok(Opcode::In),
        21 => Ok(Opcode::NoOp),
        _ => Err(VmError::InvalidOpcode(word)),
    }
}

impl TryFrom<u16> for Opcode {
    type Error = VmError;

    fn try_from(value: u16) -> (res: Result<Self, Self::Error>)
        ensures
            res == opcode_of_word(value),
    {
        match value {
            0 => Ok(Opcode::Halt),
            1 => Ok(Opcode::SetReg),
            2 => Ok(Opcode::Push),
            3 => Ok(Opcode::Pop),
            4 => Ok(Opcode::Eq),
            5 => Ok(Opcode::Gt),
            6 => Ok(Opcode::Jmp),
            7 => Ok(Opcode::Jt),
            8 => Ok(Opcode::Jf),
            9 => Ok(Opcode::Add),
            10 => Ok(Opcode::Mult),
            11 => Ok(Opcode::Mod),
            12 => Ok(Opcode::And),
            13 => Ok(Opcode::Or),
            14 => Ok(Opcode::Not),
            15 => Ok(Opcode::Rmem),
            16 => Ok(Opcode::Wmem),
            17 => Ok(Opcode::Call),
            18 => Ok(Opcode::Ret),
            19 => Ok(Opcode::Out),
            20 => Ok(Opcode::In),
            21 => Ok(Opcode::NoOp),
            _ => Err(VmError::InvalidOpcode(value)),
        }
    }
}

impl vstd::std_specs::convert::TryFromSpecImpl<u16> for Opcode {
    open spec fn obeys_try_from_spec() -> bool {
        true
    }

    open spec fn try_from_spec(v: u16) -> Result<Self, VmError> {
        opcode_of_word(v)
    }
}

/// Decoding an opcode word undoes encoding it: a word decodes to an opcode
/// exactly when it is that opcode's word, and exactly the words 0 to 21 do.
pub proof fn lemma_opcode_of_word(word: u16)
    ensures
        opcode_of_word(word) is Ok <==> word <= 21,
        forall|op: Opcode| opcode_of_word(word) == Ok::<Opcode, VmError>(op) <==> op.word() == word,
        word > 21 ==> opcode_of_word(word) == Err::<Opcode, VmError>(VmError::InvalidOpcode(word)),
{
}

} // verus!
