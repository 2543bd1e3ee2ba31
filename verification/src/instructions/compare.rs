//! Instructions for comparisons.
//! Opcodes reserved: 100 - 119

use vstd::prelude::*;
use vstd::string::StringExecFns;

use crate::instructions::{
    display_instruction_with_values, read_binary_operands, spec_two_sources, Executable,
    Instruction, InstructionDocumentation, InstructionSignature, OperandType, OperandValue,
    OperandValues,
};
use crate::vm::{ExecutionError, ExecutionResult, Kaylee, MachineView, REGISTER_COUNT};

verus! {

/// Equal: Stores a boolean in a destination register with the result
/// of comparing two register values: 1 when `left == right` holds,
/// 0 when it does not.
///
/// Operands: destination register id, left source register id, right
/// source register id, one byte each.
pub struct Equal {
    operand_values: OperandValues,
}

impl Equal {
    pub const OPCODE: u8 = 110;

    /// The three operand slots this instruction carries.
    pub closed spec fn operand_seq(&self) -> Seq<OperandValue> {
        self.operand_values@
    }
}

/// What executing a decoded `Equal` instruction with operand
/// slots `vals` does to machine state `m`.
pub open spec fn spec_equal_execute(vals: Seq<OperandValue>, m: MachineView) -> (
    MachineView,
    Result<ExecutionResult, ExecutionError>,
) {
    match spec_two_sources(m, vals) {
        Err(e) => (m, Err(e)),
        Ok((destination, left, right)) => {
            let outcome = left == right;
            let value: i32 = if outcome {
                1
            } else {
                0
            };
            if destination >= REGISTER_COUNT {
                (m, Err(ExecutionError::RegisterOutOfBounds { register: destination }))
            } else {
                (
                    MachineView { regs: m.regs.update(destination as int, value), ..m },
                    Ok(ExecutionResult::Equality(outcome)),
                )
            }
        },
    }
}

impl Executable for Equal {
    open spec fn spec_execute(&self, m: MachineView) -> (MachineView, Result<
        ExecutionResult,
        ExecutionError,
    >) {
        spec_equal_execute(self.operand_seq(), m)
    }

    fn execute(&self, vm: &mut Kaylee) -> (r: Result<ExecutionResult, ExecutionError>) {
        let (destination, left, right) = match read_binary_operands(&self.operand_values, vm) {
            Ok(sources) => sources,
            Err(e) => {
                return Err(e);
            },
        };
        let outcome = left == right;
        let value: i32 = if outcome {
            1
        } else {
            0
        };
        match vm.set_register(destination, value) {
            Ok(()) => Ok(ExecutionResult::Equality(outcome)),
            Err(()) => Err(ExecutionError::RegisterOutOfBounds { register: destination }),
        }
    }
}

impl Instruction for Equal {
    open spec fn spec_opcode() -> u8 {
        110
    }

    open spec fn spec_identifier() -> Seq<char> {
        "EQ"@
    }

    open spec fn spec_operand_types() -> Seq<OperandType> {
        seq![OperandType::RegisterId, OperandType::RegisterId, OperandType::RegisterId]
    }

    open spec fn spec_operand_values(&self) -> Seq<OperandValue> {
        self.operand_seq()
    }

    fn new(operand_values: OperandValues) -> (r: Self) {
        Equal { operand_values }
    }

    fn signature() -> (r: InstructionSignature) {
        let signature = InstructionSignature {
            identifier: String::from_str("EQ"),
            operands: [OperandType::RegisterId, OperandType::RegisterId, OperandType::RegisterId],
        };
        proof {
            assert(signature.operands@ =~= Self::spec_operand_types());
        }
        signature
    }

    fn documentation() -> (r: InstructionDocumentation) {
        InstructionDocumentation {
            name: String::from_str("Equal"),
            help: String::from_str("Stores the result of an equality check"),
        }
    }

    fn display(&self) -> (r: String) {
        display_instruction_with_values(Self::signature(), self.operand_values())
    }

    fn operand_values(&self) -> (r: &OperandValues) {
        &self.operand_values
    }
}

/// NotEqual: Stores a boolean in a destination register with the result
/// of comparing two register values: 1 when `left != right` holds,
/// 0 when it does not.
///
/// Operands: destination register id, left source register id, right
/// source register id, one byte each.
pub struct NotEqual {
    operand_values: OperandValues,
}

impl NotEqual {
    pub const OPCODE: u8 = 111;

    /// The three operand slots this instruction carries.
    pub closed spec fn operand_seq(&self) -> Seq<OperandValue> {
        self.operand_values@
    }
}

/// What executing a decoded `NotEqual` instruction with operand
/// slots `vals` does to machine state `m`.
pub open spec fn spec_not_equal_execute(vals: Seq<OperandValue>, m: MachineView) -> (
    MachineView,
    Result<ExecutionResult, ExecutionError>,
) {
    match spec_two_sources(m, vals) {
        Err(e) => (m, Err(e)),
        Ok((destination, left, right)) => {
            let outcome = left != right;
            let value: i32 = if outcome {
                1
            } else {
                0
            };
            if destination >= REGISTER_COUNT {
                (m, Err(ExecutionError::RegisterOutOfBounds { register: destination }))
            } else {
                (
                    MachineView { regs: m.regs.update(destination as int, value), ..m },
                    Ok(ExecutionResult::Equality(outcome)),
                )
            }
        },
    }
}

impl Executable for NotEqual {
    open spec fn spec_execute(&self, m: MachineView) -> (MachineView, Result<
        ExecutionResult,
        ExecutionError,
    >) {
        spec_not_equal_execute(self.operand_seq(), m)
    }

    fn execute(&self, vm: &mut Kaylee) -> (r: Result<ExecutionResult, ExecutionError>) {
        let (destination, left, right) = match read_binary_operands(&self.operand_values, vm) {
            Ok(sources) => sources,
            Err(e) => {
                return Err(e);
            },
        };
        let outcome = left != right;
        let value: i32 = if outcome {
            1
        } else {
            0
        };
        match vm.set_register(destination, value) {
            Ok(()) => Ok(ExecutionResult::Equality(outcome)),
            Err(()) => Err(ExecutionError::RegisterOutOfBounds { register: destination }),
        }
    }
}

impl Instruction for NotEqual {
    open spec fn spec_opcode() -> u8 {
        111
    }

    open spec fn spec_identifier() -> Seq<char> {
        "NEQ"@
    }

    open spec fn spec_operand_types() -> Seq<OperandType> {
        seq![OperandType::RegisterId, OperandType::RegisterId, OperandType::RegisterId]
    }

    open spec fn spec_operand_values(&self) -> Seq<OperandValue> {
        self.operand_seq()
    }

    fn new(operand_values: OperandValues) -> (r: Self) {
        NotEqual { operand_values }
    }

    fn signature() -> (r: InstructionSignature) {
        let signature = InstructionSignature {
            identifier: String::from_str("NEQ"),
            operands: [OperandType::RegisterId, OperandType::RegisterId, OperandType::RegisterId],
        };
        proof {
            assert(signature.operands@ =~= Self::spec_operand_types());
        }
        signature
    }

    fn documentation() -> (r: InstructionDocumentation) {
        InstructionDocumentation {
            name: String::from_str("NotEqual"),
            help: String::from_str("Stores the result of an inequality check"),
        }
    }

    fn display(&self) -> (r: String) {
        display_instruction_with_values(Self::signature(), self.operand_values())
    }

    fn operand_values(&self) -> (r: &OperandValues) {
        &self.operand_values
    }
}

/// GreaterThan: Stores a boolean in a destination register with the result
/// of comparing two register values: 1 when `left > right` holds,
/// 0 when it does not.
///
/// Operands: destination register id, left source register id, right
/// source register id, one byte each.
pub struct GreaterThan {
    operand_values: OperandValues,
}

impl GreaterThan {
    pub const OPCODE: u8 = 112;

    /// The three operand slots this instruction carries.
    pub closed spec fn operand_seq(&self) -> Seq<OperandValue> {
        self.operand_values@
    }
}

/// What executing a decoded `GreaterThan` instruction with operand
/// slots `vals` does to machine state `m`.
pub open spec fn spec_greater_than_execute(vals: Seq<OperandValue>, m: MachineView) -> (
    MachineView,
    Result<ExecutionResult, ExecutionError>,
) {
    match spec_two_sources(m, vals) {
        Err(e) => (m, Err(e)),
        Ok((destination, left, right)) => {
            let outcome = left > right;
            let value: i32 = if outcome {
                1
            } else {
                0
            };
            if destination >= REGISTER_COUNT {
                (m, Err(ExecutionError::RegisterOutOfBounds { register: destination }))
            } else {
                (
                    MachineView { regs: m.regs.update(destination as int, value), ..m },
                    Ok(ExecutionResult::Equality(outcome)),
                )
            }
        },
    }
}

impl Executable for GreaterThan {
    open spec fn spec_execute(&self, m: MachineView) -> (MachineView, Result<
        ExecutionResult,
        ExecutionError,
    >) {
        spec_greater_than_execute(self.operand_seq(), m)
    }

    fn execute(&self, vm: &mut Kaylee) -> (r: Result<ExecutionResult, ExecutionError>) {
        let (destination, left, right) = match read_binary_operands(&self.operand_values, vm) {
            Ok(sources) => sources,
            Err(e) => {
                return Err(e);
            },
        };
        let outcome = left > right;
        let value: i32 = if outcome {
            1
        } else {
            0
        };
        match vm.set_register(destination, value) {
            Ok(()) => Ok(ExecutionResult::Equality(outcome)),
            Err(()) => Err(ExecutionError::RegisterOutOfBounds { register: destination }),
        }
    }
}

impl Instruction for GreaterThan {
    open spec fn spec_opcode() -> u8 {
        112
    }

    open spec fn spec_identifier() -> Seq<char> {
        "GT"@
    }

    open spec fn spec_operand_types() -> Seq<OperandType> {
        seq![OperandType::RegisterId, OperandType::RegisterId, OperandType::RegisterId]
    }

    open spec fn spec_operand_values(&self) -> Seq<OperandValue> {
        self.operand_seq()
    }

    fn new(operand_values: OperandValues) -> (r: Self) {
        GreaterThan { operand_values }
    }

    fn signature() -> (r: InstructionSignature) {
        let signature = InstructionSignature {
            identifier: String::from_str("GT"),
            operands: [OperandType::RegisterId, OperandType::RegisterId, OperandType::RegisterId],
        };
        proof {
            assert(signature.operands@ =~= Self::spec_operand_types());
        }
        signature
    }

    fn documentation() -> (r: InstructionDocumentation) {
        InstructionDocumentation {
            name: String::from_str("GreaterThan"),
            help: String::from_str("Stores the result of a greater-than check"),
        }
    }

    fn display(&self) -> (r: String) {
        display_instruction_with_values(Self::signature(), self.operand_values())
    }

    fn operand_values(&self) -> (r: &OperandValues) {
        &self.operand_values
    }
}

/// LessThan: Stores a boolean in a destination register with the result
/// of comparing two register values: 1 when `left < right` holds,
/// 0 when it does not.
///
/// Operands: destination register id, left source register id, right
/// source register id, one byte each.
pub struct LessThan {
    operand_values: OperandValues,
}

impl LessThan {
    pub const OPCODE: u8 = 113;

    /// The three operand slots this instruction carries.
    pub closed spec fn operand_seq(&self) -> Seq<OperandValue> {
        self.operand_values@
    }
}

/// What executing a decoded `LessThan` instruction with operand
/// slots `vals` does to machine state `m`.
pub open spec fn spec_less_than_execute(vals: Seq<OperandValue>, m: MachineView) -> (
    MachineView,
    Result<ExecutionResult, ExecutionError>,
) {
    match spec_two_sources(m, vals) {
        Err(e) => (m, Err(e)),
        Ok((destination, left, right)) => {
            let outcome = left < right;
            let value: i32 = if outcome {
                1
            } else {
                0
            };
            if destination >= REGISTER_COUNT {
                (m, Err(ExecutionError::RegisterOutOfBounds { register: destination }))
            } else {
                (
                    MachineView { regs: m.regs.update(destination as int, value), ..m },
                    Ok(ExecutionResult::Equality(outcome)),
                )
            }
        },
    }
}

impl Executable for LessThan {
    open spec fn spec_execute(&self, m: MachineView) -> (MachineView, Result<
        ExecutionResult,
        ExecutionError,
    >) {
        spec_less_than_execute(self.operand_seq(), m)
    }

    fn execute(&self, vm: &mut Kaylee) -> (r: Result<ExecutionResult, ExecutionError>) {
        let (destination, left, right) = match read_binary_operands(&self.operand_values, vm) {
            Ok(sources) => sources,
            Err(e) => {
                return Err(e);
            },
        };
        let outcome = left < right;
        let value: i32 = if outcome {
            1
        } else {
            0
        };
        match vm.set_register(destination, value) {
            Ok(()) => Ok(ExecutionResult::Equality(outcome)),
            Err(()) => Err(ExecutionError::RegisterOutOfBounds { register: destination }),
        }
    }
}

impl Instruction for LessThan {
    open spec fn spec_opcode() -> u8 {
        113
    }

    open spec fn spec_identifier() -> Seq<char> {
        "LT"@
    }

    open spec fn spec_operand_types() -> Seq<OperandType> {
        seq![OperandType::RegisterId, OperandType::RegisterId, OperandType::RegisterId]
    }

    open spec fn spec_operand_values(&self) -> Seq<OperandValue> {
        self.operand_seq()
    }

    fn new(operand_values: OperandValues) -> (r: Self) {
        LessThan { operand_values }
    }

    fn signature() -> (r: InstructionSignature) {
        let signature = InstructionSignature {
            identifier: String::from_str("LT"),
            operands: [OperandType::RegisterId, OperandType::RegisterId, OperandType::RegisterId],
        };
        proof {
            assert(signature.operands@ =~= Self::spec_operand_types());
        }
        signature
    }

    fn documentation() -> (r: InstructionDocumentation) {
        InstructionDocumentation {
            name: String::from_str("LessThan"),
            help: String::from_str("Stores the result of a less-than check"),
        }
    }

    fn display(&self) -> (r: String) {
        display_instruction_with_values(Self::signature(), self.operand_values())
    }

    fn operand_values(&self) -> (r: &OperandValues) {
        &self.operand_values
    }
}

/// GreaterThanOrEqual: Stores a boolean in a destination register with the result
/// of comparing two register values: 1 when `left >= right` holds,
/// 0 when it does not.
///
/// Operands: destination register id, left source register id, right
/// source register id, one byte each.
pub struct GreaterThanOrEqual {
    operand_values: OperandValues,
}

impl GreaterThanOrEqual {
    pub const OPCODE: u8 = 114;

    /// The three operand slots this instruction carries.
    pub closed spec fn operand_seq(&self) -> Seq<OperandValue> {
        self.operand_values@
    }
}

/// What executing a decoded `GreaterThanOrEqual` instruction with operand
/// slots `vals` does to machine state `m`.
pub open spec fn spec_greater_than_or_equal_execute(vals: Seq<OperandValue>, m: MachineView) -> (
    MachineView,
    Result<ExecutionResult, ExecutionError>,
) {
    match spec_two_sources(m, vals) {
        Err(e) => (m, Err(e)),
        Ok((destination, left, right)) => {
            let outcome = left >= right;
            let value: i32 = if outcome {
                1
            } else {
                0
            };
            if destination >= REGISTER_COUNT {
                (m, Err(ExecutionError::RegisterOutOfBounds { register: destination }))
            } else {
                (
                    MachineView { regs: m.regs.update(destination as int, value), ..m },
                    Ok(ExecutionResult::Equality(outcome)),
                )
            }
        },
    }
}

impl Executable for GreaterThanOrEqual {
    open spec fn spec_execute(&self, m: MachineView) -> (MachineView, Result<
        ExecutionResult,
        ExecutionError,
    >) {
        spec_greater_than_or_equal_execute(self.operand_seq(), m)
    }

    fn execute(&self, vm: &mut Kaylee) -> (r: Result<ExecutionResult, ExecutionError>) {
        let (destination, left, right) = match read_binary_operands(&self.operand_values, vm) {
            Ok(sources) => sources,
            Err(e) => {
                return Err(e);
            },
        };
        let outcome = left >= right;
        let value: i32 = if outcome {
            1
        } else {
            0
        };
        match vm.set_register(destination, value) {
            Ok(()) => Ok(ExecutionResult::Equality(outcome)),
            Err(()) => Err(ExecutionError::RegisterOutOfBounds { register: destination }),
        }
    }
}

impl Instruction for GreaterThanOrEqual {
    open spec fn spec_opcode() -> u8 {
        114
    }

    open spec fn spec_identifier() -> Seq<char> {
        "GTE"@
    }

    open spec fn spec_operand_types() -> Seq<OperandType> {
        seq![OperandType::RegisterId, OperandType::RegisterId, OperandType::RegisterId]
    }

    open spec fn spec_operand_values(&self) -> Seq<OperandValue> {
        self.operand_seq()
    }

    fn new(operand_values: OperandValues) -> (r: Self) {
        GreaterThanOrEqual { operand_values }
    }

    fn signature() -> (r: InstructionSignature) {
        let signature = InstructionSignature {
            identifier: String::from_str("GTE"),
            operands: [OperandType::RegisterId, OperandType::RegisterId, OperandType::RegisterId],
        };
        proof {
            assert(signature.operands@ =~= Self::spec_operand_types());
        }
        signature
    }

    fn documentation() -> (r: InstructionDocumentation) {
        InstructionDocumentation {
            name: String::from_str("GreaterThanOrEqual"),
            help: String::from_str("Stores the result of a greater-than-or-equal check"),
        }
    }

    fn display(&self) -> (r: String) {
        display_instruction_with_values(Self::signature(), self.operand_values())
    }

    fn operand_values(&self) -> (r: &OperandValues) {
        &self.operand_values
    }
}

/// LessThanOrEqual: Stores a boolean in a destination register with the result
/// of comparing two register values: 1 when `left <= right` holds,
/// 0 when it does not.
///
/// Operands: destination register id, left source register id, right
/// source register id, one byte each.
pub struct LessThanOrEqual {
    operand_values: OperandValues,
}

impl LessThanOrEqual {
    pub const OPCODE: u8 = 115;

    /// The three operand slots this instruction carries.
    pub closed spec fn operand_seq(&self) -> Seq<OperandValue> {
        self.operand_values@
    }
}

/// What executing a decoded `LessThanOrEqual` instruction with operand
/// slots `vals` does to machine state `m`.
pub open spec fn spec_less_than_or_equal_execute(vals: Seq<OperandValue>, m: MachineView) -> (
    MachineView,
    Result<ExecutionResult, ExecutionError>,
) {
    match spec_two_sources(m, vals) {
        Err(e) => (m, Err(e)),
        Ok((destination, left, right)) => {
            let outcome = left <= right;
            let value: i32 = if outcome {
                1
            } else {
                0
            };
            if destination >= REGISTER_COUNT {
                (m, Err(ExecutionError::RegisterOutOfBounds { register: destination }))
            } else {
                (
                    MachineView { regs: m.regs.update(destination as int, value), ..m },
                    Ok(ExecutionResult::Equality(outcome)),
                )
            }
        },
    }
}

impl Executable for LessThanOrEqual {
    open spec fn spec_execute(&self, m: MachineView) -> (MachineView, Result<
        ExecutionResult,
        ExecutionError,
    >) {
        spec_less_than_or_equal_execute(self.operand_seq(), m)
    }

    fn execute(&self, vm: &mut Kaylee) -> (r: Result<ExecutionResult, ExecutionError>) {
        let (destination, left, right) = match read_binary_operands(&self.operand_values, vm) {
            Ok(sources) => sources,
            Err(e) => {
                return Err(e);
            },
        };
        let outcome = left <= right;
        let value: i32 = if outcome {
            1
        } else {
            0
        };
        match vm.set_register(destination, value) {
            Ok(()) => Ok(ExecutionResult::Equality(outcome)),
            Err(()) => Err(ExecutionError::RegisterOutOfBounds { register: destination }),
        }
    }
}

impl Instruction for LessThanOrEqual {
    open spec fn spec_opcode() -> u8 {
        115
    }

    open spec fn spec_identifier() -> Seq<char> {
        "LTE"@
    }

    open spec fn spec_operand_types() -> Seq<OperandType> {
        seq![OperandType::RegisterId, OperandType::RegisterId, OperandType::RegisterId]
    }

    open spec fn spec_operand_values(&self) -> Seq<OperandValue> {
        self.operand_seq()
    }

    fn new(operand_values: OperandValues) -> (r: Self) {
        LessThanOrEqual { operand_values }
    }

    fn signature() -> (r: InstructionSignature) {
        let signature = InstructionSignature {
            identifier: String::from_str("LTE"),
            operands: [OperandType::RegisterId, OperandType::RegisterId, OperandType::RegisterId],
        };
        proof {
            assert(signature.operands@ =~= Self::spec_operand_types());
        }
        signature
    }

    fn documentation() -> (r: InstructionDocumentation) {
        InstructionDocumentation {
            name: String::from_str("LessThanOrEqual"),
            help: String::from_str("Stores the result of a less-than-or-equal check"),
        }
    }

    fn display(&self) -> (r: String) {
        display_instruction_with_values(Self::signature(), self.operand_values())
    }

    fn operand_values(&self) -> (r: &OperandValues) {
        &self.operand_values
    }
}

} // verus!
