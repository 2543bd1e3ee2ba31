//! Instructions for navigating and manipulating the program counter.
//! Opcodes reserved: 50 - 69

use vstd::prelude::*;
use vstd::string::StringExecFns;

use crate::instructions::{
    display_instruction_with_values, read_register_operand, spec_constant_value,
    spec_register_id, spec_register_read, Executable, Instruction, InstructionDocumentation,
    InstructionSignature, OperandType, OperandValue, OperandValues,
};
use crate::vm::{ExecutionError, ExecutionResult, Kaylee, MachineView};

verus! {

/// Jump: Resets the program counter to a constant byte offset.
///
/// Operand: a three-byte big-endian program offset; the other two
/// slots are unused.
pub struct Jump {
    operand_values: OperandValues,
}

impl Jump {
    pub const OPCODE: u8 = 50;

    /// The three operand slots this instruction carries.
    pub closed spec fn operand_seq(&self) -> Seq<OperandValue> {
        self.operand_values@
    }
}

/// What executing a decoded `Jump` instruction with operand
/// slots `vals` does to machine state `m`.
pub open spec fn spec_jump_execute(vals: Seq<OperandValue>, m: MachineView) -> (
    MachineView,
    Result<ExecutionResult, ExecutionError>,
) {
    if vals[0] is Empty {
        (m, Err(ExecutionError::InvalidOperand))
    } else {
        let destination = spec_register_id(vals[0]).unwrap();
        (
            MachineView { program_counter: destination as nat, ..m },
            Ok(ExecutionResult::Jumped(destination)),
        )
    }
}

impl Executable for Jump {
    open spec fn spec_execute(&self, m: MachineView) -> (MachineView, Result<
        ExecutionResult,
        ExecutionError,
    >) {
        spec_jump_execute(self.operand_seq(), m)
    }

    fn execute(&self, vm: &mut Kaylee) -> (r: Result<ExecutionResult, ExecutionError>) {
        let destination = match self.operand_values[0].as_program_index() {
            Some(index) => index,
            None => {
                return Err(ExecutionError::InvalidOperand);
            },
        };
        vm.set_program_counter(destination);
        Ok(ExecutionResult::Jumped(destination))
    }
}

impl Instruction for Jump {
    open spec fn spec_opcode() -> u8 {
        50
    }

    open spec fn spec_identifier() -> Seq<char> {
        "JUMP"@
    }

    open spec fn spec_operand_types() -> Seq<OperandType> {
        seq![OperandType::ConstantWord, OperandType::Unused, OperandType::Unused]
    }

    open spec fn spec_operand_values(&self) -> Seq<OperandValue> {
        self.operand_seq()
    }

    fn new(operand_values: OperandValues) -> (r: Self) {
        Jump { operand_values }
    }

    fn signature() -> (r: InstructionSignature) {
        let signature = InstructionSignature {
            identifier: String::from_str("JUMP"),
            operands: [OperandType::ConstantWord, OperandType::Unused, OperandType::Unused],
        };
        proof {
            assert(signature.operands@ =~= Self::spec_operand_types());
        }
        signature
    }

    fn documentation() -> (r: InstructionDocumentation) {
        InstructionDocumentation {
            name: String::from_str("Jump"),
            help: String::from_str("Resets the program counter to a constant byte offset"),
        }
    }

    fn display(&self) -> (r: String) {
        display_instruction_with_values(Self::signature(), self.operand_values())
    }

    fn operand_values(&self) -> (r: &OperandValues) {
        &self.operand_values
    }
}

/// JumpForward: Moves the program counter forward a number of
/// four-byte instruction slots.
///
/// Operand: a three-byte big-endian count of instructions; the other
/// two slots are unused.
pub struct JumpForward {
    operand_values: OperandValues,
}

impl JumpForward {
    pub const OPCODE: u8 = 51;

    /// The three operand slots this instruction carries.
    pub closed spec fn operand_seq(&self) -> Seq<OperandValue> {
        self.operand_values@
    }
}

/// What executing a decoded `JumpForward` instruction with operand
/// slots `vals` does to machine state `m`.
pub open spec fn spec_jump_forward_execute(vals: Seq<OperandValue>, m: MachineView) -> (
    MachineView,
    Result<ExecutionResult, ExecutionError>,
) {
    if vals[0] is Empty {
        (m, Err(ExecutionError::InvalidOperand))
    } else {
        let forward = spec_constant_value(vals[0]).unwrap();
        match forward.checked_mul(4) {
            None => (m, Err(ExecutionError::Overflow)),
            Some(steps) => if steps < 0 {
                (m, Err(ExecutionError::ProgramCounterOutOfRange))
            } else if m.program_counter + steps > usize::MAX {
                (m, Err(ExecutionError::ProgramCounterOutOfRange))
            } else {
                (
                    MachineView {
                        program_counter: (m.program_counter + steps) as nat,
                        ..m
                    },
                    Ok(ExecutionResult::Jumped((m.program_counter + steps) as usize)),
                )
            },
        }
    }
}

impl Executable for JumpForward {
    open spec fn spec_execute(&self, m: MachineView) -> (MachineView, Result<
        ExecutionResult,
        ExecutionError,
    >) {
        spec_jump_forward_execute(self.operand_seq(), m)
    }

    fn execute(&self, vm: &mut Kaylee) -> (r: Result<ExecutionResult, ExecutionError>) {
        let forward = match self.operand_values[0].as_constant_value() {
            Some(value) => value,
            None => {
                return Err(ExecutionError::InvalidOperand);
            },
        };
        let steps = match forward.checked_mul(4) {
            Some(steps) => steps,
            None => {
                return Err(ExecutionError::Overflow);
            },
        };
        if steps < 0 {
            return Err(ExecutionError::ProgramCounterOutOfRange);
        }
        let target = match vm.program_counter().checked_add(steps as usize) {
            Some(target) => target,
            None => {
                return Err(ExecutionError::ProgramCounterOutOfRange);
            },
        };
        vm.set_program_counter(target);
        Ok(ExecutionResult::Jumped(target))
    }
}

impl Instruction for JumpForward {
    open spec fn spec_opcode() -> u8 {
        51
    }

    open spec fn spec_identifier() -> Seq<char> {
        "JUMPF"@
    }

    open spec fn spec_operand_types() -> Seq<OperandType> {
        seq![OperandType::ConstantWord, OperandType::Unused, OperandType::Unused]
    }

    open spec fn spec_operand_values(&self) -> Seq<OperandValue> {
        self.operand_seq()
    }

    fn new(operand_values: OperandValues) -> (r: Self) {
        JumpForward { operand_values }
    }

    fn signature() -> (r: InstructionSignature) {
        let signature = InstructionSignature {
            identifier: String::from_str("JUMPF"),
            operands: [OperandType::ConstantWord, OperandType::Unused, OperandType::Unused],
        };
        proof {
            assert(signature.operands@ =~= Self::spec_operand_types());
        }
        signature
    }

    fn documentation() -> (r: InstructionDocumentation) {
        InstructionDocumentation {
            name: String::from_str("JumpForward"),
            help: String::from_str("Moves the program counter forward a number of instructions"),
        }
    }

    fn display(&self) -> (r: String) {
        display_instruction_with_values(Self::signature(), self.operand_values())
    }

    fn operand_values(&self) -> (r: &OperandValues) {
        &self.operand_values
    }
}

/// JumpBackward: Moves the program counter backward a number of
/// four-byte instruction slots. One extra slot is subtracted to
/// compensate for the program counter having already advanced past
/// this jump instruction itself.
///
/// Operand: a three-byte big-endian count of instructions; the other
/// two slots are unused.
pub struct JumpBackward {
    operand_values: OperandValues,
}

impl JumpBackward {
    pub const OPCODE: u8 = 52;

    /// The three operand slots this instruction carries.
    pub closed spec fn operand_seq(&self) -> Seq<OperandValue> {
        self.operand_values@
    }
}

/// What executing a decoded `JumpBackward` instruction with operand
/// slots `vals` does to machine state `m`.
pub open spec fn spec_jump_backward_execute(vals: Seq<OperandValue>, m: MachineView) -> (
    MachineView,
    Result<ExecutionResult, ExecutionError>,
) {
    if vals[0] is Empty {
        (m, Err(ExecutionError::InvalidOperand))
    } else {
        let backward = spec_constant_value(vals[0]).unwrap();
        match backward.checked_add(1) {
            None => (m, Err(ExecutionError::Overflow)),
            Some(slots) => match slots.checked_mul(4) {
                None => (m, Err(ExecutionError::Overflow)),
                Some(steps) => if steps < 0 {
                    (m, Err(ExecutionError::ProgramCounterOutOfRange))
                } else if m.program_counter < steps {
                    (m, Err(ExecutionError::ProgramCounterOutOfRange))
                } else {
                    (
                        MachineView {
                            program_counter: (m.program_counter - steps) as nat,
                            ..m
                        },
                        Ok(ExecutionResult::Jumped((m.program_counter - steps) as usize)),
                    )
                },
            },
        }
    }
}

impl Executable for JumpBackward {
    open spec fn spec_execute(&self, m: MachineView) -> (MachineView, Result<
        ExecutionResult,
        ExecutionError,
    >) {
        spec_jump_backward_execute(self.operand_seq(), m)
    }

    fn execute(&self, vm: &mut Kaylee) -> (r: Result<ExecutionResult, ExecutionError>) {
        let backward = match self.operand_values[0].as_constant_value() {
            Some(value) => value,
            None => {
                return Err(ExecutionError::InvalidOperand);
            },
        };
        let slots = match backward.checked_add(1) {
            Some(slots) => slots,
            None => {
                return Err(ExecutionError::Overflow);
            },
        };
        let steps = match slots.checked_mul(4) {
            Some(steps) => steps,
            None => {
                return Err(ExecutionError::Overflow);
            },
        };
        if steps < 0 {
            return Err(ExecutionError::ProgramCounterOutOfRange);
        }
        let target = match vm.program_counter().checked_sub(steps as usize) {
            Some(target) => target,
            None => {
                return Err(ExecutionError::ProgramCounterOutOfRange);
            },
        };
        vm.set_program_counter(target);
        Ok(ExecutionResult::Jumped(target))
    }
}

impl Instruction for JumpBackward {
    open spec fn spec_opcode() -> u8 {
        52
    }

    open spec fn spec_identifier() -> Seq<char> {
        "JUMPB"@
    }

    open spec fn spec_operand_types() -> Seq<OperandType> {
        seq![OperandType::ConstantWord, OperandType::Unused, OperandType::Unused]
    }

    open spec fn spec_operand_values(&self) -> Seq<OperandValue> {
        self.operand_seq()
    }

    fn new(operand_values: OperandValues) -> (r: Self) {
        JumpBackward { operand_values }
    }

    fn signature() -> (r: InstructionSignature) {
        let signature = InstructionSignature {
            identifier: String::from_str("JUMPB"),
            operands: [OperandType::ConstantWord, OperandType::Unused, OperandType::Unused],
        };
        proof {
            assert(signature.operands@ =~= Self::spec_operand_types());
        }
        signature
    }

    fn documentation() -> (r: InstructionDocumentation) {
        InstructionDocumentation {
            name: String::from_str("JumpBackward"),
            help: String::from_str("Moves the program counter backward a number of instructions"),
        }
    }

    fn display(&self) -> (r: String) {
        display_instruction_with_values(Self::signature(), self.operand_values())
    }

    fn operand_values(&self) -> (r: &OperandValues) {
        &self.operand_values
    }
}

/// JumpEqual: Moves the program counter to the value of a register if
/// the values of two registers are equal.
///
/// Operands: the register holding the target program offset, then the
/// left and right registers to compare, one byte each.
pub struct JumpEqual {
    operand_values: OperandValues,
}

impl JumpEqual {
    pub const OPCODE: u8 = 53;

    /// The three operand slots this instruction carries.
    pub closed spec fn operand_seq(&self) -> Seq<OperandValue> {
        self.operand_values@
    }
}

/// What executing a decoded `JumpEqual` instruction with operand
/// slots `vals` does to machine state `m`.
pub open spec fn spec_jump_equal_execute(vals: Seq<OperandValue>, m: MachineView) -> (
    MachineView,
    Result<ExecutionResult, ExecutionError>,
) {
    match spec_register_read(m, vals, 0) {
        Err(e) => (m, Err(e)),
        Ok(destination) => match spec_register_read(m, vals, 1) {
            Err(e) => (m, Err(e)),
            Ok(left) => match spec_register_read(m, vals, 2) {
                Err(e) => (m, Err(e)),
                Ok(right) => if left == right {
                    let target = destination as usize;
                    (
                        MachineView { program_counter: target as nat, ..m },
                        Ok(ExecutionResult::Jumped(target)),
                    )
                } else {
                    (m, Ok(ExecutionResult::NoAction))
                },
            },
        },
    }
}

impl Executable for JumpEqual {
    open spec fn spec_execute(&self, m: MachineView) -> (MachineView, Result<
        ExecutionResult,
        ExecutionError,
    >) {
        spec_jump_equal_execute(self.operand_seq(), m)
    }

    fn execute(&self, vm: &mut Kaylee) -> (r: Result<ExecutionResult, ExecutionError>) {
        let destination = match read_register_operand(&self.operand_values, 0, vm) {
            Ok(value) => value,
            Err(e) => {
                return Err(e);
            },
        };
        let left = match read_register_operand(&self.operand_values, 1, vm) {
            Ok(value) => value,
            Err(e) => {
                return Err(e);
            },
        };
        let right = match read_register_operand(&self.operand_values, 2, vm) {
            Ok(value) => value,
            Err(e) => {
                return Err(e);
            },
        };

        if left == right {
            let target = #[verifier::truncate] (destination as usize);
            vm.set_program_counter(target);
            return Ok(ExecutionResult::Jumped(target));
        }

        Ok(ExecutionResult::NoAction)
    }
}

impl Instruction for JumpEqual {
    open spec fn spec_opcode() -> u8 {
        53
    }

    open spec fn spec_identifier() -> Seq<char> {
        "JUMPE"@
    }

    open spec fn spec_operand_types() -> Seq<OperandType> {
        seq![OperandType::RegisterId, OperandType::RegisterId, OperandType::RegisterId]
    }

    open spec fn spec_operand_values(&self) -> Seq<OperandValue> {
        self.operand_seq()
    }

    fn new(operand_values: OperandValues) -> (r: Self) {
        JumpEqual { operand_values }
    }

    fn signature() -> (r: InstructionSignature) {
        let signature = InstructionSignature {
            identifier: String::from_str("JUMPE"),
            operands: [OperandType::RegisterId, OperandType::RegisterId, OperandType::RegisterId],
        };
        proof {
            assert(signature.operands@ =~= Self::spec_operand_types());
        }
        signature
    }

    fn documentation() -> (r: InstructionDocumentation) {
        InstructionDocumentation {
            name: String::from_str("JumpEqual"),
            help: String::from_str(
                "Moves the program counter to the value of a register if two registers are equal",
            ),
        }
    }

    fn display(&self) -> (r: String) {
        display_instruction_with_values(Self::signature(), self.operand_values())
    }

    fn operand_values(&self) -> (r: &OperandValues) {
        &self.operand_values
    }
}

} // verus!
