use synacor::error::{IoCause, LoadError, VmError};
use synacor::instruction::Instruction;
use synacor::operand::Operand;
use synacor::read_program;
use synacor::vm::{Status, StdinReader, Vm, VmState};

fn run_to_end(program: &[u16]) -> (Vm, Result<Status, VmError>, Vec<u8>) {
    let mut vm = Vm::new(program);
    let result = vm.run(10_000);
    let output = vm.take_output();
    (vm, result, output)
}

#[test]
fn test_halt() {
    let program = [0];
    let mut vm = Vm::new(&program);
    vm.step().expect("failed to step through program");
    assert!(!vm.is_running());
}

#[test]
fn minimal_halt() {
    let (vm, result, output) = run_to_end(&[0]);
    assert_eq!(result, Ok(Status::Halted));
    assert_eq!(vm.state().pc(), 1);
    assert!(output.is_empty());
    assert!(!vm.is_running());
}

#[test]
fn register_display() {
    let (_, result, output) = run_to_end(&[9, 32768, 32769, 4, 19, 32768, 0]);
    assert_eq!(result, Ok(Status::Halted));
    assert_eq!(output, vec![4u8]);
}

#[test]
fn text_output() {
    let (_, result, output) = run_to_end(&[19, 72, 19, 105, 0]);
    assert_eq!(result, Ok(Status::Halted));
    assert_eq!(output, vec![b'H', b'i']);
}

#[test]
fn conditional_jump() {
    let (_, result, output) = run_to_end(&[7, 1, 6, 19, 65, 0, 19, 66, 0]);
    assert_eq!(result, Ok(Status::Halted));
    assert_eq!(output, vec![b'B']);
}

#[test]
fn jump_if_false_falls_through_on_nonzero() {
    let (_, result, output) = run_to_end(&[8, 1, 6, 19, 65, 0, 19, 66, 0]);
    assert_eq!(result, Ok(Status::Halted));
    assert_eq!(output, vec![b'A']);
    let (_, _, output) = run_to_end(&[8, 0, 6, 19, 65, 0, 19, 66, 0]);
    assert_eq!(output, vec![b'B']);
    let (_, _, output) = run_to_end(&[6, 5, 19, 65, 0, 19, 66, 0]);
    assert_eq!(output, vec![b'B']);
}

#[test]
fn modular_addition() {
    let (vm, result, output) = run_to_end(&[9, 32768, 32767, 2, 19, 32768, 0]);
    assert_eq!(result, Ok(Status::Halted));
    assert_eq!(output, vec![1u8]);
    assert_eq!(vm.state().get_register(0), 1);
}

#[test]
fn call_ret_round_trip() {
    let (_, result, output) = run_to_end(&[17, 5, 19, 88, 0, 19, 89, 18]);
    assert_eq!(result, Ok(Status::Halted));
    assert_eq!(output, vec![b'Y', b'X']);
}

#[test]
fn call_pushes_the_address_behind_it() {
    let mut vm = Vm::new(&[17, 5, 0, 0, 0, 18]);
    assert_eq!(vm.step(), Ok(Status::Running));
    assert_eq!(vm.state().pc(), 5);
    assert_eq!(vm.step(), Ok(Status::Running));
    assert_eq!(vm.state().pc(), 2);
}

#[test]
fn stack_underflow_error() {
    let (vm, result, output) = run_to_end(&[3, 32768]);
    assert_eq!(result, Err(VmError::StackUnderflow));
    assert!(output.is_empty());
    assert!(!vm.is_running());
}

#[test]
fn ret_on_empty_stack_halts_cleanly() {
    let (vm, result, _) = run_to_end(&[18]);
    assert_eq!(result, Ok(Status::Halted));
    assert!(!vm.is_running());
}

#[test]
fn not_involution() {
    let program = [1, 32768, 12345, 14, 32768, 32768, 14, 32768, 32768, 19, 32768, 0];
    let (vm, result, output) = run_to_end(&program);
    assert_eq!(result, Ok(Status::Halted));
    assert_eq!(output, vec![(12345u16 & 0xff) as u8]);
    assert_eq!(output, vec![57u8]);
    assert_eq!(vm.state().get_register(0), 12345);
}

#[test]
fn not_inverts_fifteen_bits() {
    let mut state = VmState::new(&[]);
    let not = Instruction::Not(1, Operand::Literal(0));
    assert_eq!(not.execute(&mut state), Ok(true));
    assert_eq!(state.get_register(1), 32767);
    let not = Instruction::Not(1, Operand::Literal(12345));
    assert_eq!(not.execute(&mut state), Ok(true));
    assert_eq!(state.get_register(1), 20422);
}

#[test]
fn arithmetic_is_modular() {
    let mut state = VmState::new(&[]);
    let add = Instruction::Add(0, Operand::Literal(32767), Operand::Literal(32767));
    assert_eq!(add.execute(&mut state), Ok(true));
    assert_eq!(state.get_register(0), 32766);
    let mult = Instruction::Mult(1, Operand::Literal(32767), Operand::Literal(32767));
    assert_eq!(mult.execute(&mut state), Ok(true));
    assert_eq!(state.get_register(1), 1);
    let mult = Instruction::Mult(2, Operand::Literal(1000), Operand::Register(0));
    assert_eq!(mult.execute(&mut state), Ok(true));
    assert_eq!(state.get_register(2), ((1000u32 * 32766) % 32768) as u16);
    let modulo = Instruction::Mod(3, Operand::Literal(17), Operand::Literal(5));
    assert_eq!(modulo.execute(&mut state), Ok(true));
    assert_eq!(state.get_register(3), 2);
}

#[test]
fn comparisons_and_bit_operations() {
    let mut state = VmState::new(&[]);
    assert_eq!(Instruction::Eq(0, Operand::Literal(5), Operand::Literal(5)).execute(&mut state), Ok(true));
    assert_eq!(state.get_register(0), 1);
    assert_eq!(Instruction::Eq(0, Operand::Literal(5), Operand::Literal(6)).execute(&mut state), Ok(true));
    assert_eq!(state.get_register(0), 0);
    assert_eq!(Instruction::Gt(1, Operand::Literal(6), Operand::Literal(5)).execute(&mut state), Ok(true));
    assert_eq!(state.get_register(1), 1);
    assert_eq!(Instruction::Gt(1, Operand::Literal(5), Operand::Literal(5)).execute(&mut state), Ok(true));
    assert_eq!(state.get_register(1), 0);
    assert_eq!(Instruction::And(2, Operand::Literal(12), Operand::Literal(10)).execute(&mut state), Ok(true));
    assert_eq!(state.get_register(2), 8);
    assert_eq!(Instruction::Or(3, Operand::Literal(12), Operand::Literal(10)).execute(&mut state), Ok(true));
    assert_eq!(state.get_register(3), 14);
    assert_eq!(Instruction::SetReg(4, Operand::Register(3)).execute(&mut state), Ok(true));
    assert_eq!(state.get_register(4), 14);
    assert_eq!(state.read_value(&Operand::Register(4)), 14);
    assert_eq!(state.read_value(&Operand::Literal(99)), 99);
}

#[test]
fn division_by_zero_is_an_error() {
    let mut state = VmState::new(&[]);
    let modulo = Instruction::Mod(0, Operand::Literal(17), Operand::Literal(0));
    assert_eq!(modulo.execute(&mut state), Err(VmError::DivisionByZero));
    let (vm, result, _) = run_to_end(&[11, 32768, 7, 0]);
    assert_eq!(result, Err(VmError::DivisionByZero));
    assert!(!vm.is_running());
}

#[test]
fn out_truncates_to_the_low_byte() {
    let (_, result, output) = run_to_end(&[19, 321, 0]);
    assert_eq!(result, Ok(Status::Halted));
    assert_eq!(output, vec![65u8]);
}

#[test]
fn memory_access_checks_address_and_value() {
    let mut state = VmState::new(&[7, 8, 9]);
    assert_eq!(state.read(0), Ok(7));
    assert_eq!(state.read(2), Ok(9));
    assert_eq!(state.read(3), Ok(0));
    assert_eq!(state.read(32767), Ok(0));
    assert_eq!(state.read(32768), Err(VmError::InvalidAddress(32768)));
    assert_eq!(state.write(32767, 5), Ok(()));
    assert_eq!(state.read(32767), Ok(5));
    assert_eq!(state.write(32768, 5), Err(VmError::InvalidAddress(32768)));
    assert_eq!(state.write(1, 32768), Err(VmError::InvalidOperand(32768)));
    assert_eq!(state.read(1), Ok(8));
}

#[test]
fn registers_refuse_sixteen_bit_values() {
    let mut state = VmState::new(&[]);
    assert_eq!(state.set_register(7, 32767), Ok(()));
    assert_eq!(state.get_register(7), 32767);
    assert_eq!(state.set_register(7, 32768), Err(VmError::InvalidOperand(32768)));
    assert_eq!(state.get_register(7), 32767);
    assert_eq!(state.set_pc(32767), Ok(()));
    assert_eq!(state.pc(), 32767);
    assert_eq!(state.set_pc(32768), Err(VmError::InvalidAddress(32768)));
    assert_eq!(state.pc(), 32767);
}

#[test]
fn rmem_and_wmem_move_words() {
    // wmem 10 42; rmem r0 10; out r0; halt
    let (vm, result, output) = run_to_end(&[16, 10, 42, 15, 32768, 10, 19, 32768, 0]);
    assert_eq!(result, Ok(Status::Halted));
    assert_eq!(output, vec![42u8]);
    assert_eq!(vm.state().read(10), Ok(42));
}

#[test]
fn rmem_of_a_register_word_is_trapped() {
    // rmem r0 1 reads the word 32768, which no register can hold
    let (vm, result, _) = run_to_end(&[15, 32768, 1, 0]);
    assert_eq!(result, Err(VmError::InvalidOperand(32768)));
    assert_eq!(vm.state().get_register(0), 0);
}

#[test]
fn stack_is_last_in_first_out() {
    let mut state = VmState::new(&[]);
    state.push(1);
    state.push(2);
    assert_eq!(state.pop(), Ok(2));
    assert_eq!(state.pop(), Ok(1));
    assert_eq!(state.pop(), Err(VmError::StackUnderflow));
    // push 7; push 8; pop r0; pop r1; halt
    let (vm, result, _) = run_to_end(&[2, 7, 2, 8, 3, 32768, 3, 32769, 0]);
    assert_eq!(result, Ok(Status::Halted));
    assert_eq!(vm.state().get_register(0), 8);
    assert_eq!(vm.state().get_register(1), 7);
}

#[test]
fn decode_errors_stop_the_machine() {
    let (vm, result, _) = run_to_end(&[22]);
    assert_eq!(result, Err(VmError::InvalidOpcode(22)));
    assert!(!vm.is_running());
    assert_eq!(vm.state().pc(), 1);

    let (vm, result, _) = run_to_end(&[2, 32776]);
    assert_eq!(result, Err(VmError::InvalidOperand(32776)));
    assert_eq!(vm.state().pc(), 2);

    let (vm, result, _) = run_to_end(&[1, 5, 6]);
    assert_eq!(result, Err(VmError::UnexpectedOperand(Operand::Literal(5))));
    assert_eq!(vm.state().pc(), 2);

    let (_, result, _) = run_to_end(&[20, 5]);
    assert_eq!(result, Err(VmError::UnexpectedOperand(Operand::Literal(5))));
    let (_, result, _) = run_to_end(&[15, 5, 5]);
    assert_eq!(result, Err(VmError::UnexpectedOperand(Operand::Literal(5))));
}

#[test]
fn decoding_builds_the_instruction() {
    let mut vm = Vm::new(&[9, 32770, 32769, 4, 16, 32768, 7, 21]);
    assert_eq!(
        vm.read_instruction(),
        Ok(Instruction::Add(2, Operand::Register(1), Operand::Literal(4)))
    );
    assert_eq!(vm.state().pc(), 4);
    assert_eq!(
        vm.read_instruction(),
        Ok(Instruction::Wmem(Operand::Register(0), Operand::Literal(7)))
    );
    assert_eq!(vm.read_instruction(), Ok(Instruction::NoOp));
    assert_eq!(vm.state().pc(), 8);
    assert_eq!(vm.parse_operand(), Ok(Operand::Literal(0)));
    assert_eq!(vm.expect_register(), Err(VmError::UnexpectedOperand(Operand::Literal(0))));
}

#[test]
fn the_last_cell_cannot_be_fetched() {
    let mut state = VmState::new(&[]);
    assert_eq!(state.set_pc(32766), Ok(()));
    assert_eq!(state.read_u16(), Ok(0));
    assert_eq!(state.pc(), 32767);
    assert_eq!(state.read_u16(), Err(VmError::InvalidAddress(32768)));
    assert_eq!(state.pc(), 32767);
}

#[test]
fn program_is_padded_with_zeros() {
    let vm = Vm::new(&[5, 6]);
    assert!(vm.is_running());
    assert_eq!(vm.state().pc(), 0);
    assert_eq!(vm.state().read(0), Ok(5));
    assert_eq!(vm.state().read(1), Ok(6));
    assert_eq!(vm.state().read(2), Ok(0));
    assert_eq!(vm.state().read(32767), Ok(0));
    let mut r: u8 = 0;
    while r < 8 {
        assert_eq!(vm.state().get_register(r), 0);
        r += 1;
    }
}

#[test]
fn input_is_delivered_byte_by_byte() {
    // in r0; out r0; in r1; out r1; in r2; halt
    let mut vm = Vm::new(&[20, 32768, 19, 32768, 20, 32769, 19, 32769, 20, 32770, 0]);
    assert_eq!(vm.run(100), Ok(Status::AwaitingInput));
    assert_eq!(vm.state().pc(), 0);
    assert!(vm.is_running());
    assert_eq!(vm.supply_input(Ok(vec![b'a', b'\n'])), Ok(()));
    assert_eq!(vm.run(100), Ok(Status::AwaitingInput));
    assert_eq!(vm.take_output(), vec![b'a', b'\n']);
    assert_eq!(vm.state().pc(), 8);
    assert_eq!(vm.state().get_register(0), 97);
    assert_eq!(vm.state().get_register(1), 10);
    assert_eq!(vm.supply_input(Ok(vec![b'z'])), Ok(()));
    assert_eq!(vm.run(100), Ok(Status::Halted));
    assert_eq!(vm.state().get_register(2), 122);
}

#[test]
fn end_of_input_and_failed_reads_stop_the_machine() {
    let mut vm = Vm::new(&[20, 32768, 0]);
    assert_eq!(vm.step(), Ok(Status::AwaitingInput));
    assert_eq!(vm.supply_input(Ok(Vec::new())), Err(VmError::IoError(IoCause::EndOfInput)));
    assert!(!vm.is_running());
    assert_eq!(vm.step(), Ok(Status::Halted));

    let mut vm = Vm::new(&[20, 32768, 0]);
    assert_eq!(vm.supply_input(Err(IoCause::ReadFailed)), Err(VmError::IoError(IoCause::ReadFailed)));
    assert!(!vm.is_running());

    let mut state = VmState::new(&[]);
    assert_eq!(Instruction::In(0).execute(&mut state), Err(VmError::IoError(IoCause::EndOfInput)));
    assert_eq!(state.read_char(), Err(VmError::IoError(IoCause::EndOfInput)));
    state.feed_input(vec![7]);
    assert!(!state.input_exhausted());
    assert_eq!(state.read_char(), Ok(7));
    assert!(state.input_exhausted());
}

#[test]
fn reader_hands_out_lines_in_order() {
    let mut reader = StdinReader::new();
    assert!(reader.is_exhausted());
    assert_eq!(reader.read_char(), Err(VmError::IoError(IoCause::EndOfInput)));
    reader.refill(vec![1, 2]);
    assert_eq!(reader.read_char(), Ok(1));
    reader.refill(vec![3]);
    assert_eq!(reader.read_char(), Ok(2));
    assert_eq!(reader.read_char(), Ok(3));
    assert!(reader.is_exhausted());
    reader.refill(vec![4]);
    assert_eq!(reader.read_char(), Ok(4));
    assert_eq!(reader.read_char(), Err(VmError::IoError(IoCause::EndOfInput)));
}

#[test]
fn run_stops_when_the_budget_is_used_up() {
    // jmp 0
    let mut vm = Vm::new(&[6, 0]);
    assert_eq!(vm.run(1000), Ok(Status::Running));
    assert!(vm.is_running());
    assert_eq!(vm.state().pc(), 0);
    assert_eq!(vm.run(0), Ok(Status::Running));
    // noop; noop; halt
    let mut vm = Vm::new(&[21, 21, 0]);
    assert_eq!(vm.run(2), Ok(Status::Running));
    assert_eq!(vm.state().pc(), 2);
    assert_eq!(vm.run(1), Ok(Status::Halted));
    assert_eq!(vm.run(5), Ok(Status::Halted));
}

#[test]
fn registers_and_pc_stay_in_range() {
    // r0 counts up by 32767 for ever: add r0 r0 32767; mult r1 r0 r0; not r2 r1; jmp 0
    let mut vm = Vm::new(&[9, 32768, 32768, 32767, 10, 32769, 32768, 32768, 14, 32770, 32769, 6, 0]);
    let mut turn = 0;
    while turn < 400 {
        assert_eq!(vm.step(), Ok(Status::Running));
        assert!(vm.state().pc() < 32768);
        let mut r: u8 = 0;
        while r < 8 {
            assert!(vm.state().get_register(r) < 32768);
            r += 1;
        }
        turn += 1;
    }
}

#[test]
fn program_bytes_are_little_endian_words() {
    assert_eq!(read_program(&[]), Ok(Vec::new()));
    assert_eq!(read_program(&[0x13, 0x00, 0x48, 0x00, 0x00, 0x80]), Ok(vec![19u16, 72, 32768]));
    assert_eq!(read_program(&[0x34, 0x12]), Ok(vec![0x1234u16]));
    assert_eq!(read_program(&[0xff, 0xff]), Ok(vec![65535u16]));
    assert_eq!(read_program(&[1, 0, 2]), Err(LoadError::OddLength));
    let full = vec![0u8; 65536];
    assert_eq!(read_program(&full).map(|w| w.len()), Ok(32768));
    let over = vec![0u8; 65538];
    assert_eq!(read_program(&over), Err(LoadError::TooLong));
}
