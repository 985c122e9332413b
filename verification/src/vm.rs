use crate::decode::{decode, expect_register, lemma_decode_moves_only_pc, parse_operand};
use crate::driver::VmView;
use crate::error::{IoCause, VmError};
use crate::instruction::Instruction;
use crate::model::StateView;
use crate::opcode::Opcode;
use crate::operand::{Literal, Operand, Register};
use vstd::prelude::*;

verus! {

/// A line of input and how far it has been read.
pub struct StdinReader {
    buf: Vec<u8>,
    pos: usize,
}

impl StdinReader {
    /// The cursor lies within the buffer.
    pub closed spec fn wf(&self) -> bool {
        self.pos <= self.buf.len()
    }

    /// The bytes still to be read, next one first.
    pub closed spec fn view(&self) -> Seq<u8> {
        self.buf@.subrange(self.pos as int, self.buf.len() as int)
    }

    pub fn new() -> (reader: Self)
        ensures
            reader.wf(),
            reader@ == Seq::<u8>::empty(),
    {
        Self { buf: Vec::new(), pos: 0 }
    }

    /// Whether every byte handed in so far has been read.
    pub fn is_exhausted(&self) -> (res: bool)
        requires
            self.wf(),
        ensures
            res == (self@.len() == 0),
    {
        self.pos == self.buf.len()
    }

    /// Hands the reader the next line; it is read after what is still unread.
    pub fn refill(&mut self, line: Vec<u8>)
        requires
            old(self).wf(),
        ensures
            final(self).wf(),
            final(self)@ == old(self)@ + line@,
    {
        if self.pos == self.buf.len() {
            self.buf = line;
            self.pos = 0;
            assert(self@ =~= old(self)@ + line@);
        } else {
            let ghost added = line@;
            let mut rest = line;
            self.buf.append(&mut rest);
            assert(self@ =~= old(self)@ + added);
        }
    }

    /// Returns the next unread byte and moves past it; with nothing left to
    /// read, reports the end of input and changes nothing.
    pub fn read_char(&mut self) -> (res: Result<u8, VmError>)
        requires
            old(self).wf(),
        ensures
            final(self).wf(),
            old(self)@.len() == 0 ==> res == Err::<u8, VmError>(VmError::IoError(IoCause::EndOfInput))
                && final(self)@ == old(self)@,
            old(self)@.len() > 0 ==> res == Ok::<u8, VmError>(old(self)@[0]) && final(self)@ == old(
                self,
            )@.drop_first(),
    {
        if self.pos == self.buf.len() {
            return Err(VmError::IoError(IoCause::EndOfInput));
        }
        let chr = self.buf[self.pos];
        self.pos += 1;
        assert(self@ =~= old(self)@.drop_first());
        Ok(chr)
    }
}

/// Memory, registers, stack, program counter and the two byte queues that
/// connect a program to its host.
pub struct VmState {
    memory: Vec<u16>,
    input_buffer: StdinReader,
    pc: u16,
    registers: [u16; 8],
    stack: Vec<u16>,
    output: Vec<u8>,
}

impl VmState {
    pub closed spec fn view(&self) -> StateView {
        StateView {
            memory: self.memory@,
            registers: self.registers@,
            stack: self.stack@,
            pc: self.pc,
            input: self.input_buffer@,
            output: self.output@,
        }
    }

    /// The input reader's own invariant.
    pub closed spec fn input_wf(&self) -> bool {
        self.input_buffer.wf()
    }

    /// The machine's invariant holds of this state.
    pub open spec fn wf(&self) -> bool {
        self.input_wf() && self@.wf()
    }

    /// A state with `code` loaded at address 0. Words of `code` beyond the
    /// 32768th do not fit in memory and are left out.
    pub fn new(code: &[u16]) -> (state: Self)
        ensures
            state.wf(),
            state@ == StateView::initial(code@),
    {
        let mut memory: Vec<u16> = Vec::with_capacity(32768);
        let mut i: usize = 0;
        while i < 32768
            invariant
                i <= 32768,
                memory@.len() == i,
                forall|a: int| 0 <= a < i ==> #[trigger] memory@[a] == (if a < code@.len() {
                    code@[a]
                } else {
                    0u16
                }),
            decreases 32768 - i,
        {
            let word: u16 = if i < code.len() { code[i] } else { 0 };
            memory.push(word);
            i += 1;
        }
        let state = VmState {
            memory,
            input_buffer: StdinReader::new(),
            pc: 0,
            registers: [0; 8],
            stack: Vec::new(),
            output: Vec::new(),
        };
        assert(state@.memory =~= StateView::initial(code@).memory);
        assert(state@.registers =~= StateView::initial(code@).registers);
        state
    }

    /// Fetches the word at the program counter and moves the counter past it.
    pub fn read_u16(&mut self) -> (res: Result<u16, VmError>)
        requires
            old(self).wf(),
        ensures
            final(self).wf(),
            final(self)@ == old(self)@.fetch().state,
            res == old(self)@.fetch().result,
    {
        if self.pc >= 32767 {
            return Err(VmError::InvalidAddress(32768));
        }
        let val = self.memory[self.pc as usize];
        self.pc += 1;
        Ok(val)
    }

    /// Reads the memory cell at `address`.
    pub fn read(&self, address: u16) -> (res: Result<u16, VmError>)
        requires
            self.wf(),
        ensures
            res == self@.load(address),
    {
        if address >= 32768 {
            return Err(VmError::InvalidAddress(address));
        }
        Ok(self.memory[address as usize])
    }

    /// Writes `value` to the memory cell at `address`.
    pub fn write(&mut self, address: u16, value: u16) -> (res: Result<(), VmError>)
        requires
            old(self).wf(),
        ensures
            final(self).wf(),
            final(self)@ == old(self)@.store(address, value).state,
            res == old(self)@.store(address, value).result,
    {
        if address >= 32768 {
            return Err(VmError::InvalidAddress(address));
        }
        if value >= 32768 {
            return Err(VmError::InvalidOperand(value));
        }
        self.memory[address as usize] = value;
        Ok(())
    }

    /// The value `operand` stands for in this state.
    pub fn read_value(&self, operand: &Operand) -> (res: Literal)
        requires
            self.wf(),
            operand.names_register(),
        ensures
            res == self@.resolve(*operand),
            operand.wf() ==> res < 32768,
    {
        match operand {
            Operand::Literal(l) => *l,
            Operand::Register(r) => self.registers[*r as usize],
        }
    }

    /// Sets a register, unless `value` does not fit in 15 bits.
    pub fn set_register(&mut self, register: Register, value: Literal) -> (res: Result<(), VmError>)
        requires
            old(self).wf(),
            register < 8,
        ensures
            final(self).wf(),
            final(self)@ == old(self)@.assign(register, value).state,
            res == old(self)@.assign(register, value).result,
    {
        if value >= 32768 {
            return Err(VmError::InvalidOperand(value));
        }
        self.registers[register as usize] = value;
        Ok(())
    }

    pub fn get_register(&self, register: Register) -> (res: Literal)
        requires
            self.wf(),
            register < 8,
        ensures
            res == self@.registers[register as int],
            res < 32768,
    {
        self.registers[register as usize]
    }

    pub fn push(&mut self, value: Literal)
        requires
            old(self).wf(),
        ensures
            final(self).wf(),
            final(self)@ == old(self)@.with_stack(old(self)@.stack.push(value)),
    {
        self.stack.push(value);
    }

    /// Takes the top of the stack; an empty stack is an error.
    pub fn pop(&mut self) -> (res: Result<Literal, VmError>)
        requires
            old(self).wf(),
        ensures
            final(self).wf(),
            final(self)@ == old(self)@.pop().state,
            res == old(self)@.pop().result,
    {
        match self.stack.pop() {
            Some(value) => Ok(value),
            None => Err(VmError::StackUnderflow),
        }
    }

    /// Consumes the next byte of input; with none left, reports the end of input.
    pub fn read_char(&mut self) -> (res: Result<u8, VmError>)
        requires
            old(self).wf(),
        ensures
            final(self).wf(),
            final(self)@ == old(self)@.read_char().state,
            res == old(self)@.read_char().result,
    {
        self.input_buffer.read_char()
    }

    pub fn pc(&self) -> (res: u16)
        requires
            self.wf(),
        ensures
            res == self@.pc,
            res < 32768,
    {
        self.pc
    }

    /// Moves the program counter, unless `new_pc` is no valid address.
    pub fn set_pc(&mut self, new_pc: u16) -> (res: Result<(), VmError>)
        requires
            old(self).wf(),
        ensures
            final(self).wf(),
            final(self)@ == old(self)@.jump(new_pc).state,
            res == old(self)@.jump(new_pc).result,
    {
        if new_pc >= 32768 {
            return Err(VmError::InvalidAddress(new_pc));
        }
        self.pc = new_pc;
        Ok(())
    }

    /// Whether a read would find no byte of input.
    pub fn input_exhausted(&self) -> (res: bool)
        requires
            self.wf(),
        ensures
            res == (self@.input.len() == 0),
    {
        self.input_buffer.is_exhausted()
    }

    /// Queues a line of input behind what is still unread.
    pub fn feed_input(&mut self, line: Vec<u8>)
        requires
            old(self).wf(),
        ensures
            final(self).wf(),
            final(self)@ == old(self)@.with_input(old(self)@.input + line@),
    {
        self.input_buffer.refill(line);
    }

    /// Queues one byte of output for the host.
    pub fn write_output(&mut self, byte: u8)
        requires
            old(self).wf(),
        ensures
            final(self).wf(),
            final(self)@ == old(self)@.with_output(old(self)@.output.push(byte)),
    {
        self.output.push(byte);
    }

    /// Hands over the output queued so far, oldest byte first, and empties the queue.
    pub fn take_output(&mut self) -> (bytes: Vec<u8>)
        requires
            old(self).wf(),
        ensures
            final(self).wf(),
            bytes@ == old(self)@.output,
            final(self)@ == old(self)@.with_output(Seq::empty()),
    {
        let mut bytes: Vec<u8> = Vec::new();
        std::mem::swap(&mut bytes, &mut self.output);
        bytes
    }
}

/// What the machine is doing after a step.
#[derive(Debug, Clone, Copy, PartialEq, Eq, Structural)]
pub enum Status {
    /// The next instruction can be executed.
    Running,
    /// The program has ended.
    Halted,
    /// The next instruction reads a byte and the input is used up: the host
    /// has to supply a line before the machine can go on.
    AwaitingInput,
}

/// The machine: a state and the flag that tells whether the program is
/// still running.
pub struct Vm {
    running: bool,
    state: VmState,
}

impl Vm {
    pub closed spec fn view(&self) -> VmView {
        VmView { running: self.running, state: self.state@ }
    }

    /// The input reader's own invariant.
    pub closed spec fn input_wf(&self) -> bool {
        self.state.input_wf()
    }

    /// The machine's invariant holds.
    pub open spec fn wf(&self) -> bool {
        self.input_wf() && self@.wf()
    }

    /// A machine ready to run `code` from address 0.
    pub fn new(code: &[u16]) -> (vm: Vm)
        ensures
            vm.wf(),
            vm@ == VmView::initial(code@),
    {
        Vm { running: true, state: VmState::new(code) }
    }

    pub fn is_running(&self) -> (res: bool)
        ensures
            res == self@.running,
    {
        self.running
    }

    /// The machine's state, to look at.
    pub fn state(&self) -> (state: &VmState)
        requires
            self.wf(),
        ensures
            state.wf(),
            state@ == self@.state,
    {
        &self.state
    }

    /// Hands over the bytes the program has written since the last call.
    pub fn take_output(&mut self) -> (bytes: Vec<u8>)
        requires
            old(self).wf(),
        ensures
            final(self).wf(),
            bytes@ == old(self)@.state.output,
            final(self)@ == old(self)@.drained(),
    {
        self.state.take_output()
    }

    /// Takes what the host got when it read a line of input for the machine.
    pub fn supply_input(&mut self, line: Result<Vec<u8>, IoCause>) -> (res: Result<(), VmError>)
        requires
            old(self).wf(),
        ensures
            final(self).wf(),
            final(self)@ == old(self)@.supply(line_view(line)).vm,
            res == old(self)@.supply(line_view(line)).status,
    {
        match line {
            Ok(bytes) => {
                if bytes.len() > 0 {
                    self.state.feed_input(bytes);
                    Ok(())
                } else {
                    self.running = false;
                    Err(VmError::IoError(IoCause::EndOfInput))
                }
            },
            Err(cause) => {
                self.running = false;
                Err(VmError::IoError(cause))
            },
        }
    }

    /// Takes one turn: decodes the instruction at the program counter and
    /// executes it. Any error stops the machine. An `in` instruction that
    /// finds the input used up is not executed and leaves the machine as it
    /// was; a stopped machine stays as it is.
    pub fn step(&mut self) -> (res: Result<Status, VmError>)
        requires
            old(self).wf(),
        ensures
            final(self).wf(),
            final(self)@ == old(self)@.step().vm,
            res == old(self)@.step().status,
    {
        if !self.running {
            return Ok(Status::Halted);
        }
        let start = self.state.pc();
        proof {
            lemma_decode_moves_only_pc(self@.state);
        }
        match self.read_instruction() {
            Ok(instruction) => {
                if matches!(instruction, Instruction::In(_)) && self.state.input_exhausted() {
                    let _ = self.state.set_pc(start);
                    return Ok(Status::AwaitingInput);
                }
                match instruction.execute(&mut self.state) {
                    Ok(true) => Ok(Status::Running),
                    Ok(false) => {
                        self.running = false;
                        Ok(Status::Halted)
                    },
                    Err(e) => {
                        self.running = false;
                        Err(e)
                    },
                }
            },
            Err(e) => {
                self.running = false;
                Err(e)
            },
        }
    }

    /// Steps until the program ends, fails or waits for input, but takes at
    /// most `budget` turns. `Ok(Status::Running)` says the budget was used up
    /// with the program still running.
    pub fn run(&mut self, budget: u64) -> (res: Result<Status, VmError>)
        requires
            old(self).wf(),
        ensures
            final(self).wf(),
            final(self)@ == old(self)@.run(budget as nat).vm,
            res == old(self)@.run(budget as nat).status,
    {
        let mut left: u64 = budget;
        while self.running && left > 0
            invariant
                self.wf(),
                self@.run(left as nat) == old(self)@.run(budget as nat),
            decreases left,
        {
            let stepped = self.step();
            match stepped {
                Ok(Status::Running) => {
                    left -= 1;
                },
                Ok(Status::Halted) => {
                    return Ok(Status::Halted);
                },
                Ok(Status::AwaitingInput) => {
                    return Ok(Status::AwaitingInput);
                },
                Err(e) => {
                    return Err(e);
                },
            }
        }
        if self.running {
            Ok(Status::Running)
        } else {
            Ok(Status::Halted)
        }
    }

    /// Reads one operand word.
    pub fn parse_operand(&mut self) -> (res: Result<Operand, VmError>)
        requires
            old(self).wf(),
        ensures
            final(self).wf(),
            final(self)@.running == old(self)@.running,
            final(self)@.state == parse_operand(old(self)@.state).state,
            res == parse_operand(old(self)@.state).result,
    {
        let word = self.state.read_u16()?;
        Operand::try_from(word)
    }

    /// Reads one operand word that has to name a register.
    pub fn expect_register(&mut self) -> (res: Result<Register, VmError>)
        requires
            old(self).wf(),
        ensures
            final(self).wf(),
            final(self)@.running == old(self)@.running,
            final(self)@.state == expect_register(old(self)@.state).state,
            res == expect_register(old(self)@.state).result,
    {
        match self.parse_operand()? {
            Operand::Register(r) => Ok(r),
            op => Err(VmError::UnexpectedOperand(op)),
        }
    }

    /// Decodes the instruction at the program counter and moves the counter
    /// behind it, or behind the word that could not be decoded.
    pub fn read_instruction(&mut self) -> (res: Result<Instruction, VmError>)
        requires
            old(self).wf(),
        ensures
            final(self).wf(),
            final(self)@.running == old(self)@.running,
            final(self)@.state == decode(old(self)@.state).state,
            res == decode(old(self)@.state).result,
            res is Ok ==> res->Ok_0.wf(),
    {
        let word = self.state.read_u16()?;
        let instruction = match Opcode::try_from(word)? {
            Opcode::Halt => Instruction::Halt,
            Opcode::SetReg => Instruction::SetReg(self.expect_register()?, self.parse_operand()?),
            Opcode::Push => Instruction::Push(self.parse_operand()?),
            Opcode::Pop => Instruction::Pop(self.expect_register()?),
            Opcode::Eq => Instruction::Eq(
                self.expect_register()?,
                self.parse_operand()?,
                self.parse_operand()?,
            ),
            Opcode::Gt => Instruction::Gt(
                self.expect_register()?,
                self.parse_operand()?,
                self.parse_operand()?,
            ),
            Opcode::Jmp => Instruction::Jmp(self.parse_operand()?),
            Opcode::Jt => Instruction::Jt(self.parse_operand()?, self.parse_operand()?),
            Opcode::Jf => Instruction::Jf(self.parse_operand()?, self.parse_operand()?),
            Opcode::Add => Instruction::Add(
                self.expect_register()?,
                self.parse_operand()?,
                self.parse_operand()?,
            ),
            Opcode::Mult => Instruction::Mult(
                self.expect_register()?,
                self.parse_operand()?,
                self.parse_operand()?,
            ),
            Opcode::Mod => Instruction::Mod(
                self.expect_register()?,
                self.parse_operand()?,
                self.parse_operand()?,
            ),
            Opcode::And => Instruction::And(
                self.expect_register()?,
                self.parse_operand()?,
                self.parse_operand()?,
            ),
            Opcode::Or => Instruction::Or(
                self.expect_register()?,
                self.parse_operand()?,
                self.parse_operand()?,
            ),
            Opcode::Not => Instruction::Not(self.expect_register()?, self.parse_operand()?),
            Opcode::Rmem => Instruction::Rmem(self.expect_register()?, self.parse_operand()?),
            Opcode::Wmem => Instruction::Wmem(self.parse_operand()?, self.parse_operand()?),
            Opcode::Call => Instruction::Call(self.parse_operand()?),
            Opcode::Ret => Instruction::Ret,
            Opcode::Out => Instruction::Out(self.parse_operand()?),
            Opcode::In => Instruction::In(self.expect_register()?),
            Opcode::NoOp => Instruction::NoOp,
        };
        Ok(instruction)
    }
}

/// The bytes of a line the host read, or why it could not read one.
pub open spec fn line_view(line: Result<Vec<u8>, IoCause>) -> Result<Seq<u8>, IoCause> {
    match line {
        Ok(bytes) => Ok(bytes@),
        Err(cause) => Err(cause),
    }
}

} // verus!
