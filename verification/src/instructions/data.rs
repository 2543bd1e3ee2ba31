//! Instructions for manipulating data (registers).
//! Opcodes reserved: 30 - 49

use vstd::prelude::*;
use vstd::string::StringExecFns;

use crate::instructions::{
    display_instruction_with_values, spec_constant_value, spec_register_id, Executable,
    Instruction, InstructionDocumentation, InstructionSignature, OperandType, OperandValue,
    OperandValues,
};
use crate::vm::{ExecutionError, ExecutionResult, Kaylee, MachineView, REGISTER_COUNT};

verus! {

/// LOAD: Loads a constant value into a designated register.
///
/// Operands: destination register id (one byte), then a two-byte
/// big-endian constant; the third slot is unused.
pub struct Load {
    operand_values: OperandValues,
}

impl Load {
    pub const OPCODE: u8 = 30;

    /// The three operand slots this instruction carries.
    pub closed spec fn operand_seq(&self) -> Seq<OperandValue> {
        self.operand_values@
    }
}

/// What executing a decoded `Load` instruction with operand
/// slots `vals` does to machine state `m`.
pub open spec fn spec_load_execute(vals: Seq<OperandValue>, m: MachineView) -> (
    MachineView,
    Result<ExecutionResult, ExecutionError>,
) {
    if vals[0] is Empty {
        (m, Err(ExecutionError::InvalidOperand))
    } else {
        let destination = spec_register_id(vals[0]).unwrap();
        if vals[1] is Empty {
            (m, Err(ExecutionError::InvalidOperand))
        } else {
            let value = spec_constant_value(vals[1]).unwrap();
            if destination >= REGISTER_COUNT {
                (m, Err(ExecutionError::RegisterOutOfBounds { register: destination }))
            } else {
                (
                    MachineView { regs: m.regs.update(destination as int, value), ..m },
                    Ok(ExecutionResult::Value(value)),
                )
            }
        }
    }
}

impl Executable for Load {
    open spec fn spec_execute(&self, m: MachineView) -> (MachineView, Result<
        ExecutionResult,
        ExecutionError,
    >) {
        spec_load_execute(self.operand_seq(), m)
    }

    fn execute(&self, vm: &mut Kaylee) -> (r: Result<ExecutionResult, ExecutionError>) {
        let destination = match self.operand_values[0].as_register_id() {
            Some(id) => id,
            None => {
                return Err(ExecutionError::InvalidOperand);
            },
        };
        let value = match self.operand_values[1].as_constant_value() {
            Some(value) => value,
            None => {
                return Err(ExecutionError::InvalidOperand);
            },
        };
        match vm.set_register(destination, value) {
            Ok(()) => Ok(ExecutionResult::Value(value)),
            Err(()) => Err(ExecutionError::RegisterOutOfBounds { register: destination }),
        }
    }
}

impl Instruction for Load {
    open spec fn spec_opcode() -> u8 {
        30
    }

    open spec fn spec_identifier() -> Seq<char> {
        "LOAD"@
    }

    open spec fn spec_operand_types() -> Seq<OperandType> {
        seq![OperandType::RegisterId, OperandType::ConstantHalfWord, OperandType::Unused]
    }

    open spec fn spec_operand_values(&self) -> Seq<OperandValue> {
        self.operand_seq()
    }

    fn new(operand_values: OperandValues) -> (r: Self) {
        Load { operand_values }
    }

    fn signature() -> (r: InstructionSignature) {
        let signature = InstructionSignature {
            identifier: String::from_str("LOAD"),
            operands: [
                OperandType::RegisterId,
                OperandType::ConstantHalfWord,
                OperandType::Unused,
            ],
        };
        proof {
            assert(signature.operands@ =~= Self::spec_operand_types());
        }
        signature
    }

    fn documentation() -> (r: InstructionDocumentation) {
        InstructionDocumentation {
            name: String::from_str("Load"),
            help: String::from_str("Loads a constant value into a designated register"),
        }
    }

    fn display(&self) -> (r: String) {
        display_instruction_with_values(Self::signature(), self.operand_values())
    }

    fn operand_values(&self) -> (r: &OperandValues) {
        &self.operand_values
    }
}

} // verus!
