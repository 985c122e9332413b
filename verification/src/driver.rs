use crate::decode::{decode, lemma_decode_moves_only_pc, lemma_decoded_is_wf};
use crate::error::{IoCause, VmError};
use crate::instruction::{lemma_call_then_ret, lemma_effect_keeps_invariant, Instruction};
use crate::model::StateView;
use crate::operand::Operand;
use crate::vm::Status;
use vstd::prelude::*;

verus! {

/// A machine as mathematics: its state and whether it is still running.
pub struct VmView {
    pub running: bool,
    pub state: StateView,
}

/// A machine together with what the step that produced it reports.
pub struct Progress<T> {
    pub vm: VmView,
    pub status: Result<T, VmError>,
}

/// What a host can do with a machine between two looks at it.
pub enum HostAction {
    /// Let it run for at most so many turns.
    Run(nat),
    /// Hand it what reading a line of input gave.
    Supply(Result<Seq<u8>, IoCause>),
    /// Collect the output written so far.
    TakeOutput,
}

impl VmView {
    pub open spec fn wf(self) -> bool {
        self.state.wf()
    }

    /// A machine ready to run `code` from address 0.
    pub open spec fn initial(code: Seq<u16>) -> VmView {
        VmView { running: true, state: StateView::initial(code) }
    }

    /// The machine stopped, in state `state`.
    pub open spec fn stopped(state: StateView) -> VmView {
        VmView { running: false, state }
    }

    /// One turn of the machine. A stopped machine stays as it is. Otherwise
    /// the instruction at the program counter is decoded and executed; any
    /// error stops the machine. An `in` instruction that finds the input used
    /// up is not executed: the machine is left exactly as it was, waiting.
    pub open spec fn step(self) -> Progress<Status> {
        let decoded = decode(self.state);
        if !self.running {
            Progress { vm: self, status: Ok(Status::Halted) }
        } else {
            match decoded.result {
                Err(e) => Progress { vm: VmView::stopped(decoded.state), status: Err(e) },
                Ok(instruction) => if instruction is In && self.state.input.len() == 0 {
                    Progress { vm: self, status: Ok(Status::AwaitingInput) }
                } else {
                    let executed = instruction.effect(decoded.state);
                    match executed.result {
                        Ok(true) => Progress {
                            vm: VmView { running: true, state: executed.state },
                            status: Ok(Status::Running),
                        },
                        Ok(false) => Progress {
                            vm: VmView::stopped(executed.state),
                            status: Ok(Status::Halted),
                        },
                        Err(e) => Progress { vm: VmView::stopped(executed.state), status: Err(e) },
                    }
                },
            }
        }
    }

    /// Up to `budget` turns of the machine: it steps until a step reports
    /// anything but `Running`, or the budget is used up.
    pub open spec fn run(self, budget: nat) -> Progress<Status>
        decreases budget,
    {
        if !self.running {
            Progress { vm: self, status: Ok(Status::Halted) }
        } else if budget == 0 {
            Progress { vm: self, status: Ok(Status::Running) }
        } else {
            let stepped = self.step();
            if stepped.status == Ok::<Status, VmError>(Status::Running) {
                stepped.vm.run((budget - 1) as nat)
            } else {
                stepped
            }
        }
    }

    /// Handing the machine what the host got when it read a line. A line with
    /// bytes in it is queued as input behind what is still unread. An empty
    /// line means the input has ended, and a failed read is a failure: both
    /// stop the machine.
    pub open spec fn supply(self, line: Result<Seq<u8>, IoCause>) -> Progress<()> {
        match line {
            Ok(bytes) => if bytes.len() > 0 {
                Progress {
                    vm: VmView { state: self.state.with_input(self.state.input + bytes), ..self },
                    status: Ok(()),
                }
            } else {
                Progress {
                    vm: VmView::stopped(self.state),
                    status: Err(VmError::IoError(IoCause::EndOfInput)),
                }
            },
            Err(cause) => Progress {
                vm: VmView::stopped(self.state),
                status: Err(VmError::IoError(cause)),
            },
        }
    }

    /// The machine after the host has collected its output.
    pub open spec fn drained(self) -> VmView {
        VmView { state: self.state.with_output(Seq::empty()), ..self }
    }

    /// The machine after one action of the host.
    pub open spec fn react(self, action: HostAction) -> VmView {
        match action {
            HostAction::Run(budget) => self.run(budget).vm,
            HostAction::Supply(line) => self.supply(line).vm,
            HostAction::TakeOutput => self.drained(),
        }
    }

    /// The machine after a series of actions of the host, first one first.
    pub open spec fn after(self, actions: Seq<HostAction>) -> VmView
        decreases actions.len(),
    {
        if actions.len() == 0 {
            self
        } else {
            self.after(actions.drop_last()).react(actions.last())
        }
    }
}

/// A fresh machine satisfies the invariant.
pub proof fn lemma_initial_state_wf(code: Seq<u16>)
    ensures
        StateView::initial(code).wf(),
{
}

/// One turn keeps the invariant: afterwards every register still holds a
/// 15-bit value and the program counter is still a valid address.
pub proof fn lemma_step_keeps_invariant(vm: VmView)
    requires
        vm.wf(),
    ensures
        vm.step().vm.wf(),
{
    lemma_decode_moves_only_pc(vm.state);
    let decoded = decode(vm.state);
    if decoded.result is Ok {
        lemma_decoded_is_wf(vm.state);
        lemma_effect_keeps_invariant(decoded.result->Ok_0, decoded.state);
    }
}

/// Every state a run passes through or ends in satisfies the invariant:
/// however many turns are taken, registers hold 15-bit values and the
/// program counter is a valid address.
pub proof fn lemma_run_keeps_invariant(vm: VmView, budget: nat)
    requires
        vm.wf(),
    ensures
        vm.run(budget).vm.wf(),
    decreases budget,
{
    if vm.running && budget > 0 {
        lemma_step_keeps_invariant(vm);
        lemma_run_keeps_invariant(vm.step().vm, (budget - 1) as nat);
    }
}

/// Whatever program is loaded and whatever the host does with the machine,
/// in every state the machine can reach each register holds a value below
/// 32768, the program counter is below 32768 and memory has 32768 cells.
pub proof fn lemma_reachable_states_wf(code: Seq<u16>, actions: Seq<HostAction>)
    ensures
        VmView::initial(code).after(actions).wf(),
        VmView::initial(code).after(actions).state.pc < 32768,
        VmView::initial(code).after(actions).state.memory.len() == 32768,
        forall|r: int|
            0 <= r < 8 ==> #[trigger] VmView::initial(code).after(actions).state.registers[r] < 32768,
    decreases actions.len(),
{
    lemma_initial_state_wf(code);
    if actions.len() > 0 {
        lemma_reachable_states_wf(code, actions.drop_last());
        let before = VmView::initial(code).after(actions.drop_last());
        match actions.last() {
            HostAction::Run(budget) => {
                lemma_run_keeps_invariant(before, budget);
            },
            _ => {},
        }
    }
}

/// A call answered at once by a return: when the machine steps through a
/// `call` whose target holds a `ret`, the two turns leave the program counter
/// at the instruction right after the call, and the stack as it was.
pub proof fn lemma_call_then_ret_steps(vm: VmView, target: Operand)
    requires
        vm.wf(),
        vm.running,
        decode(vm.state).result == Ok::<Instruction, VmError>(Instruction::Call(target)),
        decode(vm.step().vm.state).result == Ok::<Instruction, VmError>(Instruction::Ret),
    ensures
        vm.step().status == Ok::<Status, VmError>(Status::Running),
        vm.step().vm.step().status == Ok::<Status, VmError>(Status::Running),
        vm.step().vm.step().vm.state.pc == vm.state.pc + 2,
        vm.step().vm.step().vm.state.stack == vm.state.stack,
{
    lemma_decode_moves_only_pc(vm.state);
    lemma_decoded_is_wf(vm.state);
    let at_call = decode(vm.state).state;
    assert(Instruction::Call(target).sources()[0] == target);
    assert(at_call.pc == vm.state.pc + 2);
    let called = vm.step().vm;
    lemma_step_keeps_invariant(vm);
    lemma_decode_moves_only_pc(called.state);
    let at_ret = decode(called.state).state;
    assert(at_ret.stack == called.state.stack);
    lemma_call_then_ret(at_call, target, at_ret);
}

} // verus!
