//! Machine state: the register file, program counter, remainder
//! register and halted flag, together with its accessors.

use vstd::prelude::*;

use crate::instructions::compare::{
    Equal, GreaterThan, GreaterThanOrEqual, LessThan, LessThanOrEqual, NotEqual,
};
use crate::instructions::math::{Add, Divide, Multiply, Subtract};
use crate::instructions::program::{Jump, JumpBackward, JumpEqual, JumpForward};
use crate::instructions::{
    decode_next_instruction, signature_width, spec_execute_opcode, spec_opcode_registered,
    spec_operand_types_of, spec_operands, spec_register_id, DecodedInstruction, Executable,
    Instruction, InstructionDecodeError, OperandValue,
};
use crate::program::Program;

verus! {

/// The id used for each register, an index into the register file.
pub type RegisterId = usize;

/// The value a register holds.
pub type RegisterValue = i32;

/// A single opcode or operand byte.
pub type Byte = u8;

/// A two-byte operand value.
pub type HalfWord = u16;

/// A three-byte (24-bit) operand value, carried in a `u32`.
pub type Word = u32;

/// How many general-purpose registers the machine has.
pub const REGISTER_COUNT: usize = 32;

/// What a single instruction reported back to the execution loop.
#[derive(Debug, PartialEq, Eq, Clone, Copy)]
pub enum ExecutionResult {
    Halted,
    NoAction,
    Value(RegisterValue),
    Jumped(crate::program::ProgramIndex),
    Equality(bool),
}

/// Why an instruction could not run to completion.
///
/// Every abort of the underlying design is surfaced as one of these
/// recoverable values instead of ending the process.
#[derive(Debug, PartialEq, Eq, Clone, Copy)]
pub enum ExecutionError {
    /// The byte stream could not be decoded; carries the decode error.
    Decode(crate::instructions::InstructionDecodeError),
    /// An operand named a register at or beyond `REGISTER_COUNT`.
    RegisterOutOfBounds { register: RegisterId },
    /// An operand slot did not hold the kind of value the instruction needed.
    InvalidOperand,
    /// An arithmetic instruction produced a value outside the 32-bit signed range.
    Overflow,
    /// A division instruction read a zero divisor.
    DivisionByZero,
    /// A jump moved the program counter below zero or beyond `usize`.
    ProgramCounterOutOfRange,
    /// A run executed its maximum cycle budget without completing;
    /// the guard against runaway programs, since the instruction set
    /// allows unconditional jumps that loop forever.
    CycleLimitExceeded,
}

/// The mathematical model of the machine state.
pub struct MachineView {
    /// The register file; always `REGISTER_COUNT` entries.
    pub regs: Seq<i32>,
    /// Byte offset into the program of the next opcode to fetch.
    pub program_counter: nat,
    /// The unsigned remainder of the last division.
    pub remainder: u32,
    /// Whether a halt instruction has run.
    pub halted: bool,
}

impl MachineView {
    /// A machine view is well formed when its register file has the
    /// fixed size of the register file.
    pub open spec fn wf(self) -> bool {
        self.regs.len() == REGISTER_COUNT
    }
}

/// The virtual machine: 32 signed 32-bit registers, a remainder
/// register, a program counter and a halted flag.
pub struct Kaylee {
    registers: [RegisterValue; 32],
    program_counter: usize,
    remainder: u32,
    halted: bool,
}

impl View for Kaylee {
    type V = MachineView;

    closed spec fn view(&self) -> MachineView {
        MachineView {
            regs: self.registers@,
            program_counter: self.program_counter as nat,
            remainder: self.remainder,
            halted: self.halted,
        }
    }
}

impl Kaylee {
    /// Creates a machine with all registers zero, the program counter
    /// at the start, no remainder and the halted flag clear.
    pub fn new() -> (r: Self)
        ensures
            r@.wf(),
            r@.regs == Seq::new(REGISTER_COUNT as nat, |i: int| 0i32),
            r@.program_counter == 0,
            r@.remainder == 0,
            !r@.halted,
    {
        let machine = Kaylee {
            registers: [0; 32],
            remainder: 0,
            program_counter: 0,
            halted: false,
        };
        proof {
            assert(machine@.regs =~= Seq::new(REGISTER_COUNT as nat, |i: int| 0i32));
        }
        machine
    }

    /// Reads one register; fails if the id is out of bounds.
    pub fn register(&self, register: RegisterId) -> (r: Result<RegisterValue, ()>)
        ensures
            register < REGISTER_COUNT ==> r == Ok::<RegisterValue, ()>(self@.regs[register as int]),
            register >= REGISTER_COUNT ==> r == Err::<RegisterValue, ()>(()),
    {
        if register > REGISTER_COUNT - 1 {
            return Err(());
        }

        Ok(self.registers[register])
    }

    /// Returns a copy of the whole register file.
    pub fn all_registers(&self) -> (r: [RegisterValue; 32])
        ensures
            r@ == self@.regs,
    {
        self.registers
    }

    /// Writes one register; fails if the id is out of bounds.
    pub fn set_register(&mut self, register: RegisterId, value: RegisterValue) -> (r: Result<
        (),
        (),
    >)
        ensures
            register < REGISTER_COUNT ==> {
                &&& r == Ok::<(), ()>(())
                &&& final(self)@ == (MachineView {
                    regs: old(self)@.regs.update(register as int, value),
                    ..old(self)@
                })
            },
            register >= REGISTER_COUNT ==> {
                &&& r == Err::<(), ()>(())
                &&& final(self)@ == old(self)@
            },
    {
        if register > REGISTER_COUNT - 1 {
            return Err(());
        }

        self.registers[register] = value;
        Ok(())
    }

    /// Raises the halted flag; the run loop stops after the current cycle.
    pub fn halt(&mut self)
        ensures
            final(self)@ == (MachineView { halted: true, ..old(self)@ }),
    {
        self.halted = true;
    }

    /// Whether the halted flag is raised.
    pub fn halted(&self) -> (r: bool)
        ensures
            r == self@.halted,
    {
        self.halted
    }

    /// The unsigned remainder stored by the last division.
    pub fn remainder(&self) -> (r: u32)
        ensures
            r == self@.remainder,
    {
        self.remainder
    }

    /// Overwrites the remainder register.
    pub fn set_remainder(&mut self, remainder: u32)
        ensures
            final(self)@ == (MachineView { remainder, ..old(self)@ }),
    {
        self.remainder = remainder
    }

    /// The byte offset of the next opcode to fetch.
    pub fn program_counter(&self) -> (r: crate::program::ProgramIndex)
        ensures
            r == self@.program_counter,
    {
        self.program_counter
    }

    /// Moves the program counter to `index`.
    pub fn set_program_counter(&mut self, index: crate::program::ProgramIndex)
        ensures
            final(self)@ == (MachineView { program_counter: index as nat, ..old(self)@ }),
    {
        self.program_counter = index
    }
}

/// What one fetch-decode-execute cycle does on a given machine state.
pub enum CycleOutcome {
    /// The program counter was at or past the end of the program;
    /// nothing ran and the state is unchanged.
    Finished,
    /// One instruction was decoded and executed, moving the machine
    /// to the given state and reporting the given result.
    Ran(MachineView, ExecutionResult),
    /// Decoding or executing failed, leaving the machine in the given
    /// state; the error ends the run.
    Stopped(MachineView, ExecutionError),
}

/// The one-cycle transition relation of the machine: fetch the opcode
/// at the program counter, resolve its signature in the registry,
/// decode its operands, force the program counter four bytes past the
/// start of the instruction, and execute. A control-transfer
/// instruction overwrites the program counter during execution,
/// superseding that fixed advance.
pub open spec fn spec_cycle(prog: Seq<u8>, m: MachineView) -> CycleOutcome {
    if m.program_counter >= prog.len() {
        CycleOutcome::Finished
    } else {
        let opcode = prog[m.program_counter as int];
        if !spec_opcode_registered(opcode) {
            CycleOutcome::Stopped(
                MachineView { program_counter: (m.program_counter + 1) as nat, ..m },
                ExecutionError::Decode(InstructionDecodeError::IllegalOpcode),
            )
        } else {
            let ops = spec_operand_types_of(opcode).unwrap();
            if m.program_counter + 1 + signature_width(ops) > prog.len() {
                CycleOutcome::Stopped(
                    MachineView { program_counter: (m.program_counter + 1) as nat, ..m },
                    ExecutionError::Decode(InstructionDecodeError::InvalidValueSize),
                )
            } else {
                let vals = spec_operands(ops, prog, m.program_counter + 1int);
                let advanced = MachineView {
                    program_counter: (m.program_counter + 4) as nat,
                    ..m
                };
                let (next, result) = spec_execute_opcode(opcode, vals, advanced);
                match result {
                    Ok(outcome) => CycleOutcome::Ran(next, outcome),
                    Err(e) => CycleOutcome::Stopped(next, e),
                }
            }
        }
    }
}

/// Where a bounded number of cycles lands a run that started in a
/// given machine state.
pub enum RunOutcome {
    /// The run ended in the given state with the given result before
    /// exhausting its cycle budget.
    Done(MachineView, Result<(), ExecutionError>),
    /// The cycle budget ran out with the machine still running, in
    /// the given state.
    Spinning(MachineView),
}

/// Running the machine for at most `fuel + 1` cycles: the run ends
/// when the program counter leaves the program, when a cycle fails,
/// or when an executed instruction has raised the halted flag.
pub open spec fn spec_run(prog: Seq<u8>, m: MachineView, fuel: nat) -> RunOutcome
    decreases fuel,
{
    match spec_cycle(prog, m) {
        CycleOutcome::Finished => RunOutcome::Done(m, Ok(())),
        CycleOutcome::Stopped(next, e) => RunOutcome::Done(next, Err(e)),
        CycleOutcome::Ran(next, _) => if next.halted {
            RunOutcome::Done(next, Ok(()))
        } else if fuel == 0 {
            RunOutcome::Spinning(next)
        } else {
            spec_run(prog, next, (fuel - 1) as nat)
        },
    }
}

/// Law: a cycle that runs any instruction other than the four
/// control-transfer ones leaves the program counter at exactly four
/// bytes past the start of the instruction; only JUMP, JUMPF, JUMPB
/// and JUMPE may set it to anything else.
pub proof fn lemma_pc_advances_by_four(prog: Seq<u8>, m: MachineView)
    requires
        m.wf(),
        spec_cycle(prog, m) is Ran,
        prog[m.program_counter as int] != Jump::spec_opcode(),
        prog[m.program_counter as int] != JumpForward::spec_opcode(),
        prog[m.program_counter as int] != JumpBackward::spec_opcode(),
        prog[m.program_counter as int] != JumpEqual::spec_opcode(),
    ensures
        spec_cycle(prog, m)->Ran_0.program_counter == m.program_counter + 4,
{
}

/// Law: a comparison instruction that runs to completion writes
/// exactly 0 or 1 into its destination register, never another
/// value, and touches nothing else of the machine state.
pub proof fn lemma_comparison_writes_flag(opcode: u8, vals: Seq<OperandValue>, m: MachineView)
    requires
        m.wf(),
        vals.len() == 3,
        opcode == Equal::spec_opcode() || opcode == NotEqual::spec_opcode() || opcode
            == GreaterThan::spec_opcode() || opcode == LessThan::spec_opcode() || opcode
            == GreaterThanOrEqual::spec_opcode() || opcode == LessThanOrEqual::spec_opcode(),
        spec_execute_opcode(opcode, vals, m).1 is Ok,
    ensures
        ({
            let next = spec_execute_opcode(opcode, vals, m).0;
            let destination = spec_register_id(vals[0]).unwrap() as int;
            &&& 0 <= destination < m.regs.len()
            &&& (next.regs[destination] == 0 || next.regs[destination] == 1)
            &&& next.regs == m.regs.update(destination, next.regs[destination])
            &&& next.program_counter == m.program_counter
            &&& next.remainder == m.remainder
            &&& next.halted == m.halted
        }),
{
}

/// Law: an arithmetic instruction that runs to completion writes
/// only its destination register; the program counter and the halted
/// flag are untouched, and so is the remainder register, except by
/// DIV, which overwrites it with the division's remainder.
pub proof fn lemma_arithmetic_writes_destination(
    opcode: u8,
    vals: Seq<OperandValue>,
    m: MachineView,
)
    requires
        m.wf(),
        vals.len() == 3,
        opcode == Add::spec_opcode() || opcode == Subtract::spec_opcode() || opcode
            == Multiply::spec_opcode() || opcode == Divide::spec_opcode(),
        spec_execute_opcode(opcode, vals, m).1 is Ok,
    ensures
        ({
            let next = spec_execute_opcode(opcode, vals, m).0;
            let destination = spec_register_id(vals[0]).unwrap() as int;
            &&& 0 <= destination < m.regs.len()
            &&& next.regs == m.regs.update(destination, next.regs[destination])
            &&& next.program_counter == m.program_counter
            &&& next.halted == m.halted
            &&& (opcode != Divide::spec_opcode() ==> next.remainder == m.remainder)
        }),
{
}

/// A run that is still spinning after `fuel + 1` cycles continues
/// with one more cycle from the state it reached.
pub proof fn lemma_spec_run_extend(prog: Seq<u8>, m: MachineView, fuel: nat)
    requires
        spec_run(prog, m, fuel) is Spinning,
    ensures
        ({
            let reached = spec_run(prog, m, fuel)->Spinning_0;
            spec_run(prog, m, fuel + 1) == spec_run(prog, reached, 0)
        }),
    decreases fuel,
{
    match spec_cycle(prog, m) {
        CycleOutcome::Finished => {},
        CycleOutcome::Stopped(next, e) => {},
        CycleOutcome::Ran(next, _) => {
            if !next.halted && fuel > 0 {
                lemma_spec_run_extend(prog, next, (fuel - 1) as nat);
            }
        },
    }
}

impl Kaylee {
    /// Executes one already-decoded instruction against the machine.
    pub fn execute_instruction(&mut self, instruction: DecodedInstruction) -> (r: Result<
        ExecutionResult,
        ExecutionError,
    >)
        requires
            old(self)@.wf(),
        ensures
            final(self)@ == instruction.spec_execute(old(self)@).0,
            r == instruction.spec_execute(old(self)@).1,
            final(self)@.wf(),
    {
        instruction.execute(self)
    }

    /// Executes exactly one fetch-decode-execute cycle.
    ///
    /// Yields nothing when the program counter is at or past the end
    /// of the program; otherwise the decoded instruction's report, or
    /// the error that ended the cycle.
    pub fn run_next(&mut self, program: &Program) -> (r: Option<
        Result<ExecutionResult, ExecutionError>,
    >)
        requires
            old(self)@.wf(),
            program@.len() + 4 <= usize::MAX,
        ensures
            final(self)@.wf(),
            match spec_cycle(program@, old(self)@) {
                CycleOutcome::Finished => r is None && final(self)@ == old(self)@,
                CycleOutcome::Ran(next, outcome) => {
                    &&& r == Some(Ok::<ExecutionResult, ExecutionError>(outcome))
                    &&& final(self)@ == next
                },
                CycleOutcome::Stopped(next, e) => {
                    &&& r == Some(Err::<ExecutionResult, ExecutionError>(e))
                    &&& final(self)@ == next
                },
            },
    {
        match decode_next_instruction(program, &mut self.program_counter) {
            None => None,
            Some(Err(e)) => Some(Err(ExecutionError::Decode(e))),
            Some(Ok(instruction)) => {
                proof {
                    instruction.lemma_execute_is_opcode_dispatch(self@);
                }
                Some(self.execute_instruction(instruction))
            },
        }
    }

    /// Runs the program until one of the following conditions is met:
    /// the program counter leaves the program (natural termination),
    /// an executed instruction has raised the halted flag, or a cycle
    /// fails, whose error is returned. The instruction set allows
    /// unconditional jumps that loop forever, so the run is bounded
    /// at `usize::MAX` cycles; only a program still running after
    /// that whole budget stops with `CycleLimitExceeded`.
    #[verifier::loop_isolation(false)]
    pub fn run(&mut self, program: Program) -> (r: Result<(), ExecutionError>)
        requires
            old(self)@.wf(),
            program@.len() + 4 <= usize::MAX,
        ensures
            final(self)@.wf(),
            r != Err::<(), ExecutionError>(ExecutionError::CycleLimitExceeded)
                ==> exists|fuel: nat|
                spec_run(program@, old(self)@, fuel) == RunOutcome::Done(final(self)@, r),
            r == Err::<(), ExecutionError>(ExecutionError::CycleLimitExceeded)
                ==> spec_run(program@, old(self)@, (usize::MAX - 1) as nat)
                == RunOutcome::Spinning(final(self)@),
            r is Ok ==> final(self)@.halted || final(self)@.program_counter >= program@.len(),
    {
        let ghost start = self@;
        let mut cycles_left: usize = usize::MAX;
        let ghost mut steps: nat = 0nat;
        loop
            invariant
                self@.wf(),
                program@.len() + 4 <= usize::MAX,
                cycles_left + steps == usize::MAX,
                steps == 0 ==> self@ == start,
                steps > 0 ==> spec_run(program@, start, (steps - 1) as nat)
                    == RunOutcome::Spinning(self@),
                forall|fuel: nat|
                    (#[trigger] spec_run(program@, self@, fuel)) is Done ==> exists|fuel0: nat|
                        spec_run(program@, start, fuel0) == spec_run(program@, self@, fuel),
            decreases cycles_left,
        {
            if cycles_left == 0 {
                return Err(ExecutionError::CycleLimitExceeded);
            }
            cycles_left = cycles_left - 1;

            let ghost before = self@;
            match self.run_next(&program) {
                None => {
                    proof {
                        assert(spec_run(program@, before, 0) == RunOutcome::Done(
                            self@,
                            Ok::<(), ExecutionError>(()),
                        ));
                    }
                    return Ok(());
                },
                Some(Err(e)) => {
                    proof {
                        assert(spec_run(program@, before, 0) == RunOutcome::Done(
                            self@,
                            Err::<(), ExecutionError>(e),
                        ));
                    }
                    return Err(e);
                },
                Some(Ok(_)) => {
                    if self.halted() {
                        proof {
                            assert(spec_run(program@, before, 0) == RunOutcome::Done(
                                self@,
                                Ok::<(), ExecutionError>(()),
                            ));
                        }
                        return Ok(());
                    }
                    proof {
                        assert(spec_run(program@, before, 0) == RunOutcome::Spinning(self@));
                        if steps > 0 {
                            lemma_spec_run_extend(program@, start, (steps - 1) as nat);
                        }
                        steps = steps + 1;
                        assert forall|fuel: nat|
                            (#[trigger] spec_run(program@, self@, fuel)) is Done implies exists|
                            fuel0: nat,
                        |
                            spec_run(program@, start, fuel0) == spec_run(
                                program@,
                                self@,
                                fuel,
                            ) by {
                            assert(spec_run(program@, before, fuel + 1) == spec_run(
                                program@,
                                self@,
                                fuel,
                            ));
                        }
                    }
                },
            }
        }
    }
}

} // verus!
