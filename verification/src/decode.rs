use crate::error::VmError;
use crate::instruction::Instruction;
use crate::model::{Outcome, StateView};
use crate::opcode::{opcode_of_word, Opcode};
use crate::operand::{operand_of_word, Operand, Register};
use vstd::prelude::*;

verus! {

/// Reading one operand: the next word is fetched and classified.
pub open spec fn parse_operand(s: StateView) -> Outcome<Operand> {
    let fetched = s.fetch();
    Outcome {
        state: fetched.state,
        result: match fetched.result {
            Ok(word) => operand_of_word(word),
            Err(e) => Err(e),
        },
    }
}

/// Reading an operand that must be a register: a literal is refused.
pub open spec fn expect_register(s: StateView) -> Outcome<Register> {
    let parsed = parse_operand(s);
    Outcome {
        state: parsed.state,
        result: match parsed.result {
            Ok(Operand::Register(r)) => Ok(r),
            Ok(literal) => Err(VmError::UnexpectedOperand(literal)),
            Err(e) => Err(e),
        },
    }
}

/// The register an operand names; 0 for a literal, which names none.
pub open spec fn register_of(operand: Operand) -> Register {
    match operand {
        Operand::Register(r) => r,
        Operand::Literal(_) => 0,
    }
}

/// The instruction made of an opcode and its operands in encoding order.
/// Operands beyond the opcode's count are ignored.
pub open spec fn assemble(op: Opcode, a: Operand, b: Operand, c: Operand) -> Instruction {
    match op {
        Opcode::Halt => Instruction::Halt,
        Opcode::SetReg => Instruction::SetReg(register_of(a), b),
        Opcode::Push => Instruction::Push(a),
        Opcode::Pop => Instruction::Pop(register_of(a)),
        Opcode::Eq => Instruction::Eq(register_of(a), b, c),
        Opcode::Gt => Instruction::Gt(register_of(a), b, c),
        Opcode::Jmp => Instruction::Jmp(a),
        Opcode::Jt => Instruction::Jt(a, b),
        Opcode::Jf => Instruction::Jf(a, b),
        Opcode::Add => Instruction::Add(register_of(a), b, c),
        Opcode::Mult => Instruction::Mult(register_of(a), b, c),
        Opcode::Mod => Instruction::Mod(register_of(a), b, c),
        Opcode::And => Instruction::And(register_of(a), b, c),
        Opcode::Or => Instruction::Or(register_of(a), b, c),
        Opcode::Not => Instruction::Not(register_of(a), b),
        Opcode::Rmem => Instruction::Rmem(register_of(a), b),
        Opcode::Wmem => Instruction::Wmem(a, b),
        Opcode::Call => Instruction::Call(a),
        Opcode::Ret => Instruction::Ret,
        Opcode::Out => Instruction::Out(a),
        Opcode::In => Instruction::In(register_of(a)),
        Opcode::NoOp => Instruction::NoOp,
    }
}

/// Reading the operands of `op`, one word each, left to right. The first
/// error ends the reading, with the program counter behind the word that
/// caused it; a literal in the place of a destination is such an error.
pub open spec fn decode_operands(op: Opcode, s: StateView) -> Outcome<Instruction> {
    let count = op.operand_count();
    let first = parse_operand(s);
    let second = parse_operand(first.state);
    let third = parse_operand(second.state);
    if count >= 1 && first.result is Err {
        Outcome { state: first.state, result: Err(first.result->Err_0) }
    } else if count >= 1 && op.has_destination() && first.result->Ok_0 is Literal {
        Outcome { state: first.state, result: Err(VmError::UnexpectedOperand(first.result->Ok_0)) }
    } else if count >= 2 && second.result is Err {
        Outcome { state: second.state, result: Err(second.result->Err_0) }
    } else if count >= 3 && third.result is Err {
        Outcome { state: third.state, result: Err(third.result->Err_0) }
    } else {
        Outcome {
            state: if count == 0 {
                s
            } else if count == 1 {
                first.state
            } else if count == 2 {
                second.state
            } else {
                third.state
            },
            result: Ok(assemble(op, first.result->Ok_0, second.result->Ok_0, third.result->Ok_0)),
        }
    }
}

/// Decoding the instruction at the program counter: the opcode word, then
/// its operands. Only the program counter changes.
pub open spec fn decode(s: StateView) -> Outcome<Instruction> {
    let fetched = s.fetch();
    match fetched.result {
        Err(e) => Outcome { state: fetched.state, result: Err(e) },
        Ok(word) => match opcode_of_word(word) {
            Err(e) => Outcome { state: fetched.state, result: Err(e) },
            Ok(op) => decode_operands(op, fetched.state),
        },
    }
}

/// Decoding moves the program counter and touches nothing else, and keeps
/// the machine's invariant.
pub proof fn lemma_decode_moves_only_pc(s: StateView)
    requires
        s.wf(),
    ensures
        decode(s).state == s.with_pc(decode(s).state.pc),
        decode(s).state.wf(),
        s.pc <= decode(s).state.pc <= s.pc + 4,
{
    let f = s.fetch();
    let first = parse_operand(f.state);
    let second = parse_operand(first.state);
    let third = parse_operand(second.state);
    assert(f.state == s.with_pc(f.state.pc));
    assert(first.state == s.with_pc(first.state.pc));
    assert(second.state == s.with_pc(second.state.pc));
    assert(third.state == s.with_pc(third.state.pc));
}

/// A decoded instruction names only existing registers and 15-bit literals.
pub proof fn lemma_decoded_is_wf(s: StateView)
    requires
        decode(s).result is Ok,
    ensures
        decode(s).result->Ok_0.wf(),
{
}

} // verus!
