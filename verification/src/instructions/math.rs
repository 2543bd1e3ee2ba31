//! Instructions for arithmetic operations.
//! Opcodes reserved: 70 - 99

use vstd::prelude::*;
use vstd::string::StringExecFns;

use crate::instructions::{
    display_instruction_with_values, read_binary_operands, spec_two_sources, Executable,
    Instruction, InstructionDocumentation, InstructionSignature, OperandType, OperandValue,
    OperandValues,
};
use crate::vm::{ExecutionError, ExecutionResult, Kaylee, MachineView, REGISTER_COUNT};

verus! {

/// Add: Sums the value of two registers and loads the result into a
/// third register.
///
/// Operands: destination register id, left source register id, right
/// source register id, one byte each.
pub struct Add {
    operand_values: OperandValues,
}

impl Add {
    pub const OPCODE: u8 = 70;

    /// The three operand slots this instruction carries.
    pub closed spec fn operand_seq(&self) -> Seq<OperandValue> {
        self.operand_values@
    }
}

/// What executing a decoded `Add` instruction with operand
/// slots `vals` does to machine state `m`.
pub open spec fn spec_add_execute(vals: Seq<OperandValue>, m: MachineView) -> (
    MachineView,
    Result<ExecutionResult, ExecutionError>,
) {
    match spec_two_sources(m, vals) {
        Err(e) => (m, Err(e)),
        Ok((destination, left, right)) => match left.checked_add(right) {
            None => (m, Err(ExecutionError::Overflow)),
            Some(value) => if destination >= REGISTER_COUNT {
                (m, Err(ExecutionError::RegisterOutOfBounds { register: destination }))
            } else {
                (
                    MachineView { regs: m.regs.update(destination as int, value), ..m },
                    Ok(ExecutionResult::Value(value)),
                )
            },
        },
    }
}

impl Executable for Add {
    open spec fn spec_execute(&self, m: MachineView) -> (MachineView, Result<
        ExecutionResult,
        ExecutionError,
    >) {
        spec_add_execute(self.operand_seq(), m)
    }

    fn execute(&self, vm: &mut Kaylee) -> (r: Result<ExecutionResult, ExecutionError>) {
        let (destination, left, right) = match read_binary_operands(&self.operand_values, vm) {
            Ok(sources) => sources,
            Err(e) => {
                return Err(e);
            },
        };
        let value = match left.checked_add(right) {
            Some(value) => value,
            None => {
                return Err(ExecutionError::Overflow);
            },
        };
        match vm.set_register(destination, value) {
            Ok(()) => Ok(ExecutionResult::Value(value)),
            Err(()) => Err(ExecutionError::RegisterOutOfBounds { register: destination }),
        }
    }
}

impl Instruction for Add {
    open spec fn spec_opcode() -> u8 {
        70
    }

    open spec fn spec_identifier() -> Seq<char> {
        "ADD"@
    }

    open spec fn spec_operand_types() -> Seq<OperandType> {
        seq![OperandType::RegisterId, OperandType::RegisterId, OperandType::RegisterId]
    }

    open spec fn spec_operand_values(&self) -> Seq<OperandValue> {
        self.operand_seq()
    }

    fn new(operand_values: OperandValues) -> (r: Self) {
        Add { operand_values }
    }

    fn signature() -> (r: InstructionSignature) {
        let signature = InstructionSignature {
            identifier: String::from_str("ADD"),
            operands: [OperandType::RegisterId, OperandType::RegisterId, OperandType::RegisterId],
        };
        proof {
            assert(signature.operands@ =~= Self::spec_operand_types());
        }
        signature
    }

    fn documentation() -> (r: InstructionDocumentation) {
        InstructionDocumentation {
            name: String::from_str("Add"),
            help: String::from_str("Sums the value of two registers into a destination register"),
        }
    }

    fn display(&self) -> (r: String) {
        display_instruction_with_values(Self::signature(), self.operand_values())
    }

    fn operand_values(&self) -> (r: &OperandValues) {
        &self.operand_values
    }
}

/// Subtract: Subtracts the values of two registers and loads the
/// result into a third register.
///
/// Operands: destination register id, left source register id, right
/// source register id, one byte each.
pub struct Subtract {
    operand_values: OperandValues,
}

impl Subtract {
    pub const OPCODE: u8 = 71;

    /// The three operand slots this instruction carries.
    pub closed spec fn operand_seq(&self) -> Seq<OperandValue> {
        self.operand_values@
    }
}

/// What executing a decoded `Subtract` instruction with operand
/// slots `vals` does to machine state `m`.
pub open spec fn spec_subtract_execute(vals: Seq<OperandValue>, m: MachineView) -> (
    MachineView,
    Result<ExecutionResult, ExecutionError>,
) {
    match spec_two_sources(m, vals) {
        Err(e) => (m, Err(e)),
        Ok((destination, left, right)) => match left.checked_sub(right) {
            None => (m, Err(ExecutionError::Overflow)),
            Some(value) => if destination >= REGISTER_COUNT {
                (m, Err(ExecutionError::RegisterOutOfBounds { register: destination }))
            } else {
                (
                    MachineView { regs: m.regs.update(destination as int, value), ..m },
                    Ok(ExecutionResult::Value(value)),
                )
            },
        },
    }
}

impl Executable for Subtract {
    open spec fn spec_execute(&self, m: MachineView) -> (MachineView, Result<
        ExecutionResult,
        ExecutionError,
    >) {
        spec_subtract_execute(self.operand_seq(), m)
    }

    fn execute(&self, vm: &mut Kaylee) -> (r: Result<ExecutionResult, ExecutionError>) {
        let (destination, left, right) = match read_binary_operands(&self.operand_values, vm) {
            Ok(sources) => sources,
            Err(e) => {
                return Err(e);
            },
        };
        let value = match left.checked_sub(right) {
            Some(value) => value,
            None => {
                return Err(ExecutionError::Overflow);
            },
        };
        match vm.set_register(destination, value) {
            Ok(()) => Ok(ExecutionResult::Value(value)),
            Err(()) => Err(ExecutionError::RegisterOutOfBounds { register: destination }),
        }
    }
}

impl Instruction for Subtract {
    open spec fn spec_opcode() -> u8 {
        71
    }

    open spec fn spec_identifier() -> Seq<char> {
        "SUB"@
    }

    open spec fn spec_operand_types() -> Seq<OperandType> {
        seq![OperandType::RegisterId, OperandType::RegisterId, OperandType::RegisterId]
    }

    open spec fn spec_operand_values(&self) -> Seq<OperandValue> {
        self.operand_seq()
    }

    fn new(operand_values: OperandValues) -> (r: Self) {
        Subtract { operand_values }
    }

    fn signature() -> (r: InstructionSignature) {
        let signature = InstructionSignature {
            identifier: String::from_str("SUB"),
            operands: [OperandType::RegisterId, OperandType::RegisterId, OperandType::RegisterId],
        };
        proof {
            assert(signature.operands@ =~= Self::spec_operand_types());
        }
        signature
    }

    fn documentation() -> (r: InstructionDocumentation) {
        InstructionDocumentation {
            name: String::from_str("Subtract"),
            help: String::from_str(
                "Subtracts the value of two registers into a destination register",
            ),
        }
    }

    fn display(&self) -> (r: String) {
        display_instruction_with_values(Self::signature(), self.operand_values())
    }

    fn operand_values(&self) -> (r: &OperandValues) {
        &self.operand_values
    }
}

/// Multiply: Multiplies the values of two registers and loads the
/// result into a third register.
///
/// Operands: destination register id, left source register id, right
/// source register id, one byte each.
pub struct Multiply {
    operand_values: OperandValues,
}

impl Multiply {
    pub const OPCODE: u8 = 72;

    /// The three operand slots this instruction carries.
    pub closed spec fn operand_seq(&self) -> Seq<OperandValue> {
        self.operand_values@
    }
}

/// What executing a decoded `Multiply` instruction with operand
/// slots `vals` does to machine state `m`.
pub open spec fn spec_multiply_execute(vals: Seq<OperandValue>, m: MachineView) -> (
    MachineView,
    Result<ExecutionResult, ExecutionError>,
) {
    match spec_two_sources(m, vals) {
        Err(e) => (m, Err(e)),
        Ok((destination, left, right)) => match left.checked_mul(right) {
            None => (m, Err(ExecutionError::Overflow)),
            Some(value) => if destination >= REGISTER_COUNT {
                (m, Err(ExecutionError::RegisterOutOfBounds { register: destination }))
            } else {
                (
                    MachineView { regs: m.regs.update(destination as int, value), ..m },
                    Ok(ExecutionResult::Value(value)),
                )
            },
        },
    }
}

impl Executable for Multiply {
    open spec fn spec_execute(&self, m: MachineView) -> (MachineView, Result<
        ExecutionResult,
        ExecutionError,
    >) {
        spec_multiply_execute(self.operand_seq(), m)
    }

    fn execute(&self, vm: &mut Kaylee) -> (r: Result<ExecutionResult, ExecutionError>) {
        let (destination, left, right) = match read_binary_operands(&self.operand_values, vm) {
            Ok(sources) => sources,
            Err(e) => {
                return Err(e);
            },
        };
        let value = match left.checked_mul(right) {
            Some(value) => value,
            None => {
                return Err(ExecutionError::Overflow);
            },
        };
        match vm.set_register(destination, value) {
            Ok(()) => Ok(ExecutionResult::Value(value)),
            Err(()) => Err(ExecutionError::RegisterOutOfBounds { register: destination }),
        }
    }
}

impl Instruction for Multiply {
    open spec fn spec_opcode() -> u8 {
        72
    }

    open spec fn spec_identifier() -> Seq<char> {
        "MUL"@
    }

    open spec fn spec_operand_types() -> Seq<OperandType> {
        seq![OperandType::RegisterId, OperandType::RegisterId, OperandType::RegisterId]
    }

    open spec fn spec_operand_values(&self) -> Seq<OperandValue> {
        self.operand_seq()
    }

    fn new(operand_values: OperandValues) -> (r: Self) {
        Multiply { operand_values }
    }

    fn signature() -> (r: InstructionSignature) {
        let signature = InstructionSignature {
            identifier: String::from_str("MUL"),
            operands: [OperandType::RegisterId, OperandType::RegisterId, OperandType::RegisterId],
        };
        proof {
            assert(signature.operands@ =~= Self::spec_operand_types());
        }
        signature
    }

    fn documentation() -> (r: InstructionDocumentation) {
        InstructionDocumentation {
            name: String::from_str("Multiply"),
            help: String::from_str(
                "Multiplies the value of two registers into a destination register",
            ),
        }
    }

    fn display(&self) -> (r: String) {
        display_instruction_with_values(Self::signature(), self.operand_values())
    }

    fn operand_values(&self) -> (r: &OperandValues) {
        &self.operand_values
    }
}

/// Divide: Divides the values of two registers, loads the truncating
/// quotient into a third register, and saves the remainder in the
/// machine's remainder register.
///
/// Operands: destination register id, left source register id, right
/// source register id, one byte each.
pub struct Divide {
    operand_values: OperandValues,
}

impl Divide {
    pub const OPCODE: u8 = 73;

    /// The three operand slots this instruction carries.
    pub closed spec fn operand_seq(&self) -> Seq<OperandValue> {
        self.operand_values@
    }
}

/// What executing a decoded `Divide` instruction with operand
/// slots `vals` does to machine state `m`.
pub open spec fn spec_divide_execute(vals: Seq<OperandValue>, m: MachineView) -> (
    MachineView,
    Result<ExecutionResult, ExecutionError>,
) {
    match spec_two_sources(m, vals) {
        Err(e) => (m, Err(e)),
        Ok((destination, left, right)) => if right == 0 {
            (m, Err(ExecutionError::DivisionByZero))
        } else {
            match left.checked_div(right) {
                None => (m, Err(ExecutionError::Overflow)),
                Some(value) => if destination >= REGISTER_COUNT {
                    (m, Err(ExecutionError::RegisterOutOfBounds { register: destination }))
                } else {
                    let remainder = #[verifier::truncate] (left.checked_rem(
                        right,
                    ).unwrap() as u32);
                    (
                        MachineView {
                            regs: m.regs.update(destination as int, value),
                            remainder,
                            ..m
                        },
                        Ok(ExecutionResult::Value(value)),
                    )
                },
            }
        },
    }
}

impl Executable for Divide {
    open spec fn spec_execute(&self, m: MachineView) -> (MachineView, Result<
        ExecutionResult,
        ExecutionError,
    >) {
        spec_divide_execute(self.operand_seq(), m)
    }

    fn execute(&self, vm: &mut Kaylee) -> (r: Result<ExecutionResult, ExecutionError>) {
        let (destination, left, right) = match read_binary_operands(&self.operand_values, vm) {
            Ok(sources) => sources,
            Err(e) => {
                return Err(e);
            },
        };
        if right == 0 {
            return Err(ExecutionError::DivisionByZero);
        }
        let value = match left.checked_div(right) {
            Some(value) => value,
            None => {
                return Err(ExecutionError::Overflow);
            },
        };
        let remainder = match left.checked_rem(right) {
            Some(remainder) => #[verifier::truncate] (remainder as u32),
            None => {
                // the remainder exists whenever the quotient did: the only
                // inputs without one are a zero divisor, already rejected,
                // and i32::MIN / -1, on which checked_div returned None
                proof {
                    assert(left == i32::MIN && right == -1);
                    assert((left as int) * -1 == 2147483648);
                    assert((right as int) * -1 == 1);
                    assert((2147483648int) / 1 == 2147483648);
                    assert(false);
                }
                0
            },
        };
        match vm.set_register(destination, value) {
            Ok(()) => {
                vm.set_remainder(remainder);
                Ok(ExecutionResult::Value(value))
            },
            Err(()) => Err(ExecutionError::RegisterOutOfBounds { register: destination }),
        }
    }
}

impl Instruction for Divide {
    open spec fn spec_opcode() -> u8 {
        73
    }

    open spec fn spec_identifier() -> Seq<char> {
        "DIV"@
    }

    open spec fn spec_operand_types() -> Seq<OperandType> {
        seq![OperandType::RegisterId, OperandType::RegisterId, OperandType::RegisterId]
    }

    open spec fn spec_operand_values(&self) -> Seq<OperandValue> {
        self.operand_seq()
    }

    fn new(operand_values: OperandValues) -> (r: Self) {
        Divide { operand_values }
    }

    fn signature() -> (r: InstructionSignature) {
        let signature = InstructionSignature {
            identifier: String::from_str("DIV"),
            operands: [OperandType::RegisterId, OperandType::RegisterId, OperandType::RegisterId],
        };
        proof {
            assert(signature.operands@ =~= Self::spec_operand_types());
        }
        signature
    }

    fn documentation() -> (r: InstructionDocumentation) {
        InstructionDocumentation {
            name: String::from_str("Divide"),
            help: String::from_str(
                "Divides the value of two registers into a destination register, keeping the remainder",
            ),
        }
    }

    fn display(&self) -> (r: String) {
        display_instruction_with_values(Self::signature(), self.operand_values())
    }

    fn operand_values(&self) -> (r: &OperandValues) {
        &self.operand_values
    }
}

} // verus!
