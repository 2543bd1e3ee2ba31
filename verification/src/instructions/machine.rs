//! Instructions for controlling the virtual machine.
//! Opcodes reserved: 0 - 29

use vstd::prelude::*;
use vstd::string::StringExecFns;

use crate::instructions::{
    display_instruction_with_values, Executable, Instruction, InstructionDocumentation,
    InstructionSignature, OperandType, OperandValue, OperandValues,
};
use crate::vm::{ExecutionError, ExecutionResult, Kaylee, MachineView};

verus! {

/// Halt: Gracefully ends the program.
///
/// Operands: none. The three operand bytes are padding.
pub struct Halt {
    operand_values: OperandValues,
}

impl Halt {
    pub const OPCODE: u8 = 1;

    /// The three operand slots this instruction carries.
    pub closed spec fn operand_seq(&self) -> Seq<OperandValue> {
        self.operand_values@
    }
}

/// What executing a decoded `Halt` instruction does to machine state
/// `m`: it raises the halted flag and touches nothing else.
pub open spec fn spec_halt_execute(vals: Seq<OperandValue>, m: MachineView) -> (
    MachineView,
    Result<ExecutionResult, ExecutionError>,
) {
    (MachineView { halted: true, ..m }, Ok(ExecutionResult::Halted))
}

impl Executable for Halt {
    open spec fn spec_execute(&self, m: MachineView) -> (MachineView, Result<
        ExecutionResult,
        ExecutionError,
    >) {
        spec_halt_execute(self.operand_seq(), m)
    }

    fn execute(&self, vm: &mut Kaylee) -> (r: Result<ExecutionResult, ExecutionError>) {
        vm.halt();
        Ok(ExecutionResult::Halted)
    }
}

impl Instruction for Halt {
    open spec fn spec_opcode() -> u8 {
        1
    }

    open spec fn spec_identifier() -> Seq<char> {
        "HALT"@
    }

    open spec fn spec_operand_types() -> Seq<OperandType> {
        seq![OperandType::Unused, OperandType::Unused, OperandType::Unused]
    }

    open spec fn spec_operand_values(&self) -> Seq<OperandValue> {
        self.operand_seq()
    }

    fn new(operand_values: OperandValues) -> (r: Self) {
        Halt { operand_values }
    }

    fn signature() -> (r: InstructionSignature) {
        let signature = InstructionSignature {
            identifier: String::from_str("HALT"),
            operands: [OperandType::Unused, OperandType::Unused, OperandType::Unused],
        };
        proof {
            assert(signature.operands@ =~= Self::spec_operand_types());
        }
        signature
    }

    fn documentation() -> (r: InstructionDocumentation) {
        InstructionDocumentation {
            name: String::from_str("Halt"),
            help: String::from_str("Gracefully ends the program"),
        }
    }

    fn display(&self) -> (r: String) {
        display_instruction_with_values(Self::signature(), self.operand_values())
    }

    fn operand_values(&self) -> (r: &OperandValues) {
        &self.operand_values
    }
}

} // verus!
