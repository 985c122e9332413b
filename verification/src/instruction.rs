use crate::error::VmError;
use crate::model::{Outcome, StateView};
use crate::operand::{Literal, Operand, Register};
use crate::vm::VmState;
use vstd::prelude::*;

verus! {

/// One decoded instruction with its operands.
#[derive(Debug, Clone, Copy, PartialEq, Eq, Structural)]
pub enum Instruction {
    Halt,
    SetReg(Register, Operand),
    Push(Operand),
    Pop(Register),
    Eq(Register, Operand, Operand),
    Gt(Register, Operand, Operand),
    Jmp(Operand),
    Jt(Operand, Operand),
    Jf(Operand, Operand),
    Add(Register, Operand, Operand),
    Mult(Register, Operand, Operand),
    Mod(Register, Operand, Operand),
    And(Register, Operand, Operand),
    Or(Register, Operand, Operand),
    Not(Register, Operand),
    Rmem(Register, Operand),
    Wmem(Operand, Operand),
    Call(Operand),
    Ret,
    Out(Operand),
    In(Register),
    NoOp,
}

/// An instruction that completed goes on to the next one.
pub open spec fn proceed(done: Outcome<()>) -> Outcome<bool> {
    Outcome {
        state: done.state,
        result: match done.result {
            Ok(_) => Ok(true),
            Err(e) => Err(e),
        },
    }
}

/// An instruction that could not be carried out leaves `state` behind.
pub open spec fn fail(state: StateView, error: VmError) -> Outcome<bool> {
    Outcome { state, result: Err(error) }
}

impl Instruction {
    /// The register the instruction writes to, if it has one.
    pub open spec fn destination(self) -> Option<Register> {
        match self {
            Instruction::SetReg(d, _)
            | Instruction::Pop(d)
            | Instruction::Eq(d, _, _)
            | Instruction::Gt(d, _, _)
            | Instruction::Add(d, _, _)
            | Instruction::Mult(d, _, _)
            | Instruction::Mod(d, _, _)
            | Instruction::And(d, _, _)
            | Instruction::Or(d, _, _)
            | Instruction::Not(d, _)
            | Instruction::Rmem(d, _)
            | Instruction::In(d) => Some(d),
            _ => None,
        }
    }

    /// The operands the instruction reads, in the order they are encoded.
    pub open spec fn sources(self) -> Seq<Operand> {
        match self {
            Instruction::SetReg(_, a)
            | Instruction::Not(_, a)
            | Instruction::Rmem(_, a)
            | Instruction::Push(a)
            | Instruction::Jmp(a)
            | Instruction::Call(a)
            | Instruction::Out(a) => seq![a],
            Instruction::Eq(_, a, b)
            | Instruction::Gt(_, a, b)
            | Instruction::Add(_, a, b)
            | Instruction::Mult(_, a, b)
            | Instruction::Mod(_, a, b)
            | Instruction::And(_, a, b)
            | Instruction::Or(_, a, b)
            | Instruction::Jt(a, b)
            | Instruction::Jf(a, b)
            | Instruction::Wmem(a, b) => seq![a, b],
            _ => seq![],
        }
    }

    /// Every register the instruction names is one of the eight.
    pub open spec fn names_registers(self) -> bool {
        &&& self.destination() matches Some(d) ==> d < 8
        &&& forall|i: int| 0 <= i < self.sources().len() ==> (#[trigger] self.sources()[i]).names_register()
    }

    /// Every register the instruction names is one of the eight, and every
    /// literal fits in 15 bits.
    pub open spec fn wf(self) -> bool {
        &&& self.destination() matches Some(d) ==> d < 8
        &&& forall|i: int| 0 <= i < self.sources().len() ==> (#[trigger] self.sources()[i]).wf()
    }

    /// What executing the instruction does to a state whose program counter
    /// already points behind it, and whether the machine goes on (`true`),
    /// stops (`false`) or fails.
    pub open spec fn effect(self, s: StateView) -> Outcome<bool> {
        match self {
            Instruction::Halt => Outcome { state: s, result: Ok(false) },
            Instruction::SetReg(d, a) => proceed(s.assign(d, s.resolve(a))),
            Instruction::Push(a) => Outcome {
                state: s.with_stack(s.stack.push(s.resolve(a))),
                result: Ok(true),
            },
            Instruction::Pop(d) => match s.pop().result {
                Ok(v) => proceed(s.pop().state.assign(d, v)),
                Err(e) => fail(s, e),
            },
            Instruction::Eq(d, a, b) => proceed(
                s.assign(d, if s.resolve(a) == s.resolve(b) { 1u16 } else { 0u16 }),
            ),
            Instruction::Gt(d, a, b) => proceed(
                s.assign(d, if s.resolve(a) > s.resolve(b) { 1u16 } else { 0u16 }),
            ),
            Instruction::Jmp(a) => proceed(s.jump(s.resolve(a))),
            Instruction::Jt(a, b) => if s.resolve(a) != 0 {
                proceed(s.jump(s.resolve(b)))
            } else {
                Outcome { state: s, result: Ok(true) }
            },
            Instruction::Jf(a, b) => if s.resolve(a) == 0 {
                proceed(s.jump(s.resolve(b)))
            } else {
                Outcome { state: s, result: Ok(true) }
            },
            Instruction::Add(d, a, b) => proceed(
                s.assign(d, ((s.resolve(a) + s.resolve(b)) % 32768) as u16),
            ),
            Instruction::Mult(d, a, b) => proceed(
                s.assign(d, ((s.resolve(a) * s.resolve(b)) % 32768) as u16),
            ),
            Instruction::Mod(d, a, b) => if s.resolve(b) == 0 {
                fail(s, VmError::DivisionByZero)
            } else {
                proceed(s.assign(d, (s.resolve(a) % s.resolve(b)) as u16))
            },
            Instruction::And(d, a, b) => proceed(s.assign(d, s.resolve(a) & s.resolve(b))),
            Instruction::Or(d, a, b) => proceed(s.assign(d, s.resolve(a) | s.resolve(b))),
            Instruction::Not(d, a) => proceed(s.assign(d, s.resolve(a) ^ 0x7fff)),
            Instruction::Rmem(d, a) => match s.load(s.resolve(a)) {
                Ok(v) => proceed(s.assign(d, v)),
                Err(e) => fail(s, e),
            },
            Instruction::Wmem(a, b) => proceed(s.store(s.resolve(a), s.resolve(b))),
            Instruction::Call(a) => proceed(s.with_stack(s.stack.push(s.pc)).jump(s.resolve(a))),
            Instruction::Ret => if s.stack.len() == 0 {
                Outcome { state: s, result: Ok(false) }
            } else {
                proceed(s.pop().state.jump(s.stack.last()))
            },
            Instruction::Out(a) => Outcome {
                state: s.with_output(s.output.push((s.resolve(a) & 0xff) as u8)),
                result: Ok(true),
            },
            Instruction::In(d) => match s.read_char().result {
                Ok(c) => proceed(s.read_char().state.assign(d, c as u16)),
                Err(e) => fail(s, e),
            },
            Instruction::NoOp => Outcome { state: s, result: Ok(true) },
        }
    }

    /// Executes the instruction on `state`. `Ok(true)` lets the machine go on,
    /// `Ok(false)` stops it; on an error the state is left as it was when the
    /// error arose.
    pub fn execute(&self, state: &mut VmState) -> (res: Result<bool, VmError>)
        requires
            old(state).wf(),
            self.names_registers(),
        ensures
            final(state).wf(),
            final(state)@ == self.effect(old(state)@).state,
            res == self.effect(old(state)@).result,
    {
        proof {
            let srcs = self.sources();
            if srcs.len() > 0 {
                assert(srcs[0].names_register());
            }
            if srcs.len() > 1 {
                assert(srcs[1].names_register());
            }
        }
        match self {
            Instruction::Halt => {
                return Ok(false);
            },
            Instruction::SetReg(dest, source) => {
                let v = state.read_value(source);
                state.set_register(*dest, v)?;
            },
            Instruction::Push(a) => {
                let v = state.read_value(a);
                state.push(v);
            },
            Instruction::Pop(a) => {
                let v = state.pop()?;
                state.set_register(*a, v)?;
            },
            Instruction::Eq(dest, a, b) => {
                let a = state.read_value(a);
                let b = state.read_value(b);
                state.set_register(*dest, if a == b { 1 } else { 0 })?;
            },
            Instruction::Gt(dest, a, b) => {
                let a = state.read_value(a);
                let b = state.read_value(b);
                state.set_register(*dest, if a > b { 1 } else { 0 })?;
            },
            Instruction::Jmp(dest) => {
                let target = state.read_value(dest);
                state.set_pc(target)?;
            },
            Instruction::Jt(a, b) => {
                let a = state.read_value(a);
                let b = state.read_value(b);
                if a != 0u16 {
                    state.set_pc(b)?;
                }
            },
            Instruction::Jf(a, b) => {
                let a = state.read_value(a);
                let b = state.read_value(b);
                if a == 0u16 {
                    state.set_pc(b)?;
                }
            },
            Instruction::Add(dest, a, b) => {
                let a = state.read_value(a);
                let b = state.read_value(b);
                let sum = (a as u32 + b as u32) % 32768;
                state.set_register(*dest, sum as Literal)?;
            },
            Instruction::Mult(dest, a, b) => {
                let a = state.read_value(a);
                let b = state.read_value(b);
                assert(a * b <= 65535 * 65535) by (nonlinear_arith)
                    requires
                        a <= 65535,
                        b <= 65535,
                ;
                let product = (a as u32 * b as u32) % 32768;
                state.set_register(*dest, product as Literal)?;
            },
            Instruction::Mod(dest, a, b) => {
                let a = state.read_value(a);
                let b = state.read_value(b);
                if b == 0 {
                    return Err(VmError::DivisionByZero);
                }
                state.set_register(*dest, a % b)?;
            },
            Instruction::And(dest, a, b) => {
                let and = state.read_value(a) & state.read_value(b);
                state.set_register(*dest, and)?;
            },
            Instruction::Or(dest, a, b) => {
                let or = state.read_value(a) | state.read_value(b);
                state.set_register(*dest, or)?;
            },
            Instruction::Not(dest, a) => {
                let a = state.read_value(a);
                state.set_register(*dest, a ^ 0x7fff)?;
            },
            Instruction::Rmem(dest, a) => {
                let address = state.read_value(a);
                let v = state.read(address)?;
                state.set_register(*dest, v)?;
            },
            Instruction::Wmem(a, b) => {
                let a = state.read_value(a);
                let b = state.read_value(b);
                state.write(a, b)?;
            },
            Instruction::Call(a) => {
                let back = state.pc();
                let target = state.read_value(a);
                state.push(back);
                state.set_pc(target)?;
            },
            Instruction::Ret => match state.pop() {
                Ok(addr) => {
                    state.set_pc(addr)?;
                },
                Err(_) => {
                    return Ok(false);
                },
            },
            Instruction::Out(op) => {
                let v = state.read_value(op);
                assert(v & 0xff < 256) by (bit_vector);
                let chr = (v & 0xff) as u8;
                state.write_output(chr);
            },
            Instruction::In(dest) => {
                let chr = state.read_char()?;
                state.set_register(*dest, chr as u16)?;
            },
            Instruction::NoOp => {},
        };
        Ok(true)
    }
}

/// Executing an instruction keeps the machine's invariant, whether it
/// succeeds or fails: every register still holds a 15-bit value and the
/// program counter is still a valid address.
pub proof fn lemma_effect_keeps_invariant(instruction: Instruction, s: StateView)
    requires
        s.wf(),
        instruction.names_registers(),
    ensures
        instruction.effect(s).state.wf(),
{
    let after = instruction.effect(s).state;
    assert(after.registers.len() == 8);
    assert forall|r: int| 0 <= r < 8 implies #[trigger] after.registers[r] < 32768 by {
        assert(s.registers[r] < 32768);
    }
}

/// Addition is modular: after `add d a b` has run, register `d` holds the
/// sum of the two operand values reduced modulo 32768, and the instruction
/// cannot fail.
pub proof fn lemma_add_then_read(s: StateView, d: Register, a: Operand, b: Operand)
    requires
        s.wf(),
        d < 8,
    ensures
        Instruction::Add(d, a, b).effect(s).result == Ok::<bool, VmError>(true),
        Instruction::Add(d, a, b).effect(s).state.resolve(Operand::Register(d)) == (s.resolve(a)
            + s.resolve(b)) % 32768,
{
}

/// Inverting the low 15 bits twice gives the value back: after `not d a`
/// and then `not e d`, register `e` holds what `a` stood for. Done in place
/// on one register, the two instructions leave the whole state as it was.
pub proof fn lemma_not_involutive(s: StateView, d: Register, e: Register, a: Operand)
    requires
        s.wf(),
        d < 8,
        e < 8,
        a.wf(),
        a.names_register(),
    ensures
        Instruction::Not(d, a).effect(s).result == Ok::<bool, VmError>(true),
        Instruction::Not(e, Operand::Register(d)).effect(
            Instruction::Not(d, a).effect(s).state,
        ).result == Ok::<bool, VmError>(true),
        Instruction::Not(e, Operand::Register(d)).effect(
            Instruction::Not(d, a).effect(s).state,
        ).state.registers[e as int] == s.resolve(a),
        (a == Operand::Register(d) && e == d) ==> Instruction::Not(e, Operand::Register(d)).effect(
            Instruction::Not(d, a).effect(s).state,
        ).state == s,
{
    let x = s.resolve(a);
    assert(x < 32768);
    assert(x ^ 0x7fff < 32768 && (x ^ 0x7fff) ^ 0x7fff == x) by (bit_vector)
        requires
            x < 32768,
    ;
    let once = Instruction::Not(d, a).effect(s).state;
    let twice = Instruction::Not(e, Operand::Register(d)).effect(once).state;
    if a == Operand::Register(d) && e == d {
        assert(twice.registers =~= s.registers);
    }
}

/// A call and the return that answers it: if the stack, when `ret` runs, is
/// what `call` left behind, then `ret` goes on at the instruction right
/// after the call and the stack is what it was before the call.
pub proof fn lemma_call_then_ret(s: StateView, target: Operand, later: StateView)
    requires
        s.wf(),
        target.wf(),
        target.names_register(),
        later.stack == Instruction::Call(target).effect(s).state.stack,
    ensures
        Instruction::Call(target).effect(s).result == Ok::<bool, VmError>(true),
        Instruction::Call(target).effect(s).state.pc == s.resolve(target),
        Instruction::Ret.effect(later).result == Ok::<bool, VmError>(true),
        Instruction::Ret.effect(later).state.pc == s.pc,
        Instruction::Ret.effect(later).state.stack == s.stack,
{
    let called = Instruction::Call(target).effect(s).state;
    assert(called.stack == s.stack.push(s.pc));
    assert(called.stack.drop_last() =~= s.stack);
}

/// With 15-bit operands the computing instructions cannot fail: what they
/// store always fits in 15 bits.
pub proof fn lemma_computation_cannot_fail(s: StateView, instruction: Instruction)
    requires
        s.wf(),
        instruction.wf(),
        instruction.names_registers(),
        instruction is SetReg || instruction is Eq || instruction is Gt || instruction is Add
            || instruction is Mult || instruction is And || instruction is Or || instruction is Not,
    ensures
        instruction.effect(s).result == Ok::<bool, VmError>(true),
{
    let srcs = instruction.sources();
    assert(srcs[0].wf());
    let x = s.resolve(srcs[0]);
    if srcs.len() > 1 {
        assert(srcs[1].wf());
        let y = s.resolve(srcs[1]);
        assert((x & y) < 32768 && (x | y) < 32768) by (bit_vector)
            requires
                x < 32768,
                y < 32768,
        ;
    }
    assert(x ^ 0x7fff < 32768) by (bit_vector)
        requires
            x < 32768,
    ;
}

} // verus!
