//! Instruction infrastructure: operand types and values, the operand
//! codec, the opcode registry, and the fetch/decode entry points.
//!
//! Every instruction occupies exactly four bytes on the wire: one
//! opcode byte and three operand bytes. A signature says how the three
//! operand bytes are to be read; operand bytes that a signature leaves
//! unused are padding and are skipped, never read.

pub mod compare;
pub mod data;
pub mod machine;
pub mod math;
pub mod program;

use vstd::prelude::*;

use crate::instructions::compare::{
    spec_equal_execute, spec_greater_than_execute, spec_greater_than_or_equal_execute,
    spec_less_than_execute, spec_less_than_or_equal_execute, spec_not_equal_execute, Equal,
    GreaterThan, GreaterThanOrEqual, LessThan, LessThanOrEqual, NotEqual,
};
use crate::instructions::data::{spec_load_execute, Load};
use crate::instructions::machine::{spec_halt_execute, Halt};
use crate::instructions::math::{
    spec_add_execute, spec_divide_execute, spec_multiply_execute, spec_subtract_execute, Add,
    Divide, Multiply, Subtract,
};
use crate::instructions::program::{
    spec_jump_backward_execute, spec_jump_equal_execute, spec_jump_execute,
    spec_jump_forward_execute, Jump, JumpBackward, JumpEqual, JumpForward,
};
use crate::program::Program;
use crate::shared::{idec_string, spec_idec, str_eq};
use crate::vm::{
    Byte, ExecutionError, ExecutionResult, HalfWord, Kaylee, MachineView, RegisterId,
    RegisterValue, Word, REGISTER_COUNT,
};
use vstd::string::StringExecFns;

verus! {

/// Errors concerning decoding instruction bytecode.
#[derive(Debug, PartialEq, Eq, Clone, Copy)]
pub enum InstructionDecodeError {
    /// An operand of the signature reaches past the end of the program.
    InvalidValueSize,
    /// The opcode byte is not present in the registry.
    IllegalOpcode,
}

/// Potential types of operands.
#[derive(Debug, PartialEq, Eq, Clone, Copy)]
pub enum OperandType {
    Unused,
    RegisterId,
    ConstantByte,
    ConstantHalfWord,
    ConstantWord,
}

/// How many program bytes an operand of type `t` consumes.
pub open spec fn operand_width(t: OperandType) -> nat {
    match t {
        OperandType::Unused => 0,
        OperandType::RegisterId => 1,
        OperandType::ConstantByte => 1,
        OperandType::ConstantHalfWord => 2,
        OperandType::ConstantWord => 3,
    }
}

/// How many program bytes the three operands of a signature consume.
pub open spec fn signature_width(ops: Seq<OperandType>) -> nat
    recommends
        ops.len() == 3,
{
    operand_width(ops[0]) + operand_width(ops[1]) + operand_width(ops[2])
}

/// Value for an operand in the instruction stream.
#[derive(Debug, PartialEq, Eq, Clone, Copy)]
pub enum OperandValue {
    Byte(Byte),
    HalfWord(HalfWord),
    Word(Word),
    Empty,
}

/// The three operand slots every instruction carries; unused slots
/// hold [`OperandValue::Empty`].
pub type OperandValues = [OperandValue; 3];

/// The register index an operand value stands for, if it holds one.
pub open spec fn spec_register_id(v: OperandValue) -> Option<RegisterId> {
    match v {
        OperandValue::Byte(value) => Some(value as usize),
        OperandValue::HalfWord(value) => Some(value as usize),
        OperandValue::Word(value) => Some(value as usize),
        OperandValue::Empty => None,
    }
}

/// The constant an operand value stands for, as a register value, if
/// it holds one. A word above the signed range wraps, as a plain cast
/// would.
pub open spec fn spec_constant_value(v: OperandValue) -> Option<RegisterValue> {
    match v {
        OperandValue::Byte(value) => Some(value as i32),
        OperandValue::HalfWord(value) => Some(value as i32),
        OperandValue::Word(value) => Some(value as i32),
        OperandValue::Empty => None,
    }
}

/// The number an operand value carries, whatever its width; zero for
/// an empty slot.
pub open spec fn spec_operand_number(v: OperandValue) -> int {
    match v {
        OperandValue::Byte(value) => value as int,
        OperandValue::HalfWord(value) => value as int,
        OperandValue::Word(value) => value as int,
        OperandValue::Empty => 0,
    }
}

impl OperandValue {
    /// Reads the operand as a register index.
    pub fn as_register_id(&self) -> (r: Option<RegisterId>)
        ensures
            r == spec_register_id(*self),
    {
        match self {
            OperandValue::Byte(value) => Some(*value as usize),
            OperandValue::HalfWord(value) => Some(*value as usize),
            OperandValue::Word(value) => Some(*value as usize),
            OperandValue::Empty => None,
        }
    }

    /// Reads the operand as a program index target.
    pub fn as_program_index(&self) -> (r: Option<crate::program::ProgramIndex>)
        ensures
            r == spec_register_id(*self),
    {
        self.as_register_id()
    }

    /// Renders the operand's value as a decimal string.
    pub fn as_string(&self) -> (r: Option<String>)
        ensures
            r is Some <==> !(*self is Empty),
            r matches Some(s) ==> s@ == crate::shared::spec_udec(spec_operand_number(*self)),
    {
        match self {
            OperandValue::Byte(value) => Some(crate::shared::udec_string(*value as u32)),
            OperandValue::HalfWord(value) => Some(crate::shared::udec_string(*value as u32)),
            OperandValue::Word(value) => Some(crate::shared::udec_string(*value)),
            OperandValue::Empty => None,
        }
    }

    /// Reads the operand as a constant literal value.
    pub fn as_constant_value(&self) -> (r: Option<RegisterValue>)
        ensures
            r == spec_constant_value(*self),
    {
        match self {
            OperandValue::Byte(value) => Some(*value as i32),
            OperandValue::HalfWord(value) => Some(*value as i32),
            OperandValue::Word(value) => Some(
                #[verifier::truncate]
                (*value as i32),
            ),
            OperandValue::Empty => None,
        }
    }
}

/// The operand value that decoding an operand of type `t` at byte
/// offset `at` of `prog` yields. Multi-byte constants are big-endian.
pub open spec fn spec_operand_value(t: OperandType, prog: Seq<u8>, at: int) -> OperandValue
    recommends
        at + operand_width(t) <= prog.len(),
{
    match t {
        OperandType::Unused => OperandValue::Empty,
        OperandType::RegisterId => OperandValue::Byte(prog[at]),
        OperandType::ConstantByte => OperandValue::Byte(prog[at]),
        OperandType::ConstantHalfWord => OperandValue::HalfWord(
            (prog[at] * 256 + prog[at + 1]) as u16,
        ),
        OperandType::ConstantWord => OperandValue::Word(
            (prog[at] * 65536 + prog[at + 1] * 256 + prog[at + 2]) as u32,
        ),
    }
}

/// The three operand values that decoding a full signature starting at
/// byte offset `at` yields; each operand starts where the one before
/// it ended.
pub open spec fn spec_operands(ops: Seq<OperandType>, prog: Seq<u8>, at: int) -> Seq<OperandValue>
    recommends
        ops.len() == 3,
        at + signature_width(ops) <= prog.len(),
{
    seq![
        spec_operand_value(ops[0], prog, at),
        spec_operand_value(ops[1], prog, at + operand_width(ops[0])),
        spec_operand_value(
            ops[2],
            prog,
            at + operand_width(ops[0]) + operand_width(ops[1]),
        ),
    ]
}

/// Defines an instruction's signature.
pub struct InstructionSignature {
    pub identifier: String,
    pub operands: [OperandType; 3],
}

/// Defines an instruction's documentation.
pub struct InstructionDocumentation {
    pub name: String,
    pub help: String,
}

/// Whether three operand values fit a signature's operand types: a
/// slot holds a value exactly when its type says it carries one.
pub open spec fn operands_match(ops: Seq<OperandType>, vals: Seq<OperandValue>) -> bool {
    &&& ops.len() == 3
    &&& vals.len() == 3
    &&& forall|i: int| 0 <= i < 3 ==> ((ops[i] is Unused) <==> (vals[i] is Empty))
}

/// The rendering of one operand in a human-readable instruction:
/// nothing for an unused slot, ` $n` for a register id, ` #n` for a
/// constant.
pub open spec fn spec_render_operand(t: OperandType, v: OperandValue) -> Seq<char> {
    match t {
        OperandType::Unused => Seq::<char>::empty(),
        OperandType::RegisterId => " $"@ + spec_idec(spec_constant_value(v).unwrap() as int),
        _ => " #"@ + spec_idec(spec_constant_value(v).unwrap() as int),
    }
}

/// The human-readable rendering of an instruction: its identifier
/// followed by the rendering of each operand slot.
pub open spec fn spec_display(
    identifier: Seq<char>,
    ops: Seq<OperandType>,
    vals: Seq<OperandValue>,
) -> Seq<char>
    recommends
        operands_match(ops, vals),
{
    identifier + spec_render_operand(ops[0], vals[0]) + spec_render_operand(ops[1], vals[1])
        + spec_render_operand(ops[2], vals[2])
}

/// Reading the destination register id and the two source register
/// values that a three-register instruction works on, in the order the
/// machine reads them: the destination slot, then the first source
/// slot and its register, then the second. The destination id itself
/// is not yet bounds-checked here; it is only checked when written.
pub open spec fn spec_two_sources(m: MachineView, vals: Seq<OperandValue>) -> Result<
    (RegisterId, RegisterValue, RegisterValue),
    ExecutionError,
>
    recommends
        m.wf(),
        vals.len() == 3,
{
    if vals[0] is Empty {
        Err(ExecutionError::InvalidOperand)
    } else if vals[1] is Empty {
        Err(ExecutionError::InvalidOperand)
    } else {
        let left_id = spec_register_id(vals[1]).unwrap();
        if left_id >= REGISTER_COUNT {
            Err(ExecutionError::RegisterOutOfBounds { register: left_id })
        } else if vals[2] is Empty {
            Err(ExecutionError::InvalidOperand)
        } else {
            let right_id = spec_register_id(vals[2]).unwrap();
            if right_id >= REGISTER_COUNT {
                Err(ExecutionError::RegisterOutOfBounds { register: right_id })
            } else {
                Ok(
                    (
                        spec_register_id(vals[0]).unwrap(),
                        m.regs[left_id as int],
                        m.regs[right_id as int],
                    ),
                )
            }
        }
    }
}

/// Reading the register value that operand slot `i` points at: the
/// slot must hold a register id, and the id must be in bounds.
pub open spec fn spec_register_read(m: MachineView, vals: Seq<OperandValue>, i: int) -> Result<
    RegisterValue,
    ExecutionError,
>
    recommends
        m.wf(),
        vals.len() == 3,
        0 <= i < 3,
{
    if vals[i] is Empty {
        Err(ExecutionError::InvalidOperand)
    } else {
        let register = spec_register_id(vals[i]).unwrap();
        if register >= REGISTER_COUNT {
            Err(ExecutionError::RegisterOutOfBounds { register })
        } else {
            Ok(m.regs[register as int])
        }
    }
}

/// Reads the register value that operand slot `index` points at.
pub(crate) fn read_register_operand(
    operand_values: &OperandValues,
    index: usize,
    vm: &Kaylee,
) -> (r: Result<RegisterValue, ExecutionError>)
    requires
        vm@.wf(),
        index < 3,
    ensures
        r == spec_register_read(vm@, operand_values@, index as int),
{
    let register = match operand_values[index].as_register_id() {
        Some(id) => id,
        None => {
            return Err(ExecutionError::InvalidOperand);
        },
    };
    match vm.register(register) {
        Ok(value) => Ok(value),
        Err(()) => Err(ExecutionError::RegisterOutOfBounds { register }),
    }
}

/// Reads the destination register id and the two source register
/// values of a three-register instruction.
pub(crate) fn read_binary_operands(operand_values: &OperandValues, vm: &Kaylee) -> (r: Result<
    (RegisterId, RegisterValue, RegisterValue),
    ExecutionError,
>)
    requires
        vm@.wf(),
    ensures
        r == spec_two_sources(vm@, operand_values@),
{
    let destination = match operand_values[0].as_register_id() {
        Some(id) => id,
        None => {
            return Err(ExecutionError::InvalidOperand);
        },
    };
    let left_id = match operand_values[1].as_register_id() {
        Some(id) => id,
        None => {
            return Err(ExecutionError::InvalidOperand);
        },
    };
    let left = match vm.register(left_id) {
        Ok(value) => value,
        Err(()) => {
            return Err(ExecutionError::RegisterOutOfBounds { register: left_id });
        },
    };
    let right_id = match operand_values[2].as_register_id() {
        Some(id) => id,
        None => {
            return Err(ExecutionError::InvalidOperand);
        },
    };
    let right = match vm.register(right_id) {
        Ok(value) => value,
        Err(()) => {
            return Err(ExecutionError::RegisterOutOfBounds { register: right_id });
        },
    };
    Ok((destination, left, right))
}

/// Allows an instruction to be executable.
pub trait Executable {
    /// The mathematical meaning of executing this instruction on a
    /// machine state: the state after the instruction and what it
    /// reports back.
    spec fn spec_execute(&self, m: MachineView) -> (MachineView, Result<
        ExecutionResult,
        ExecutionError,
    >);

    /// Runs the instruction against the machine.
    fn execute(&self, vm: &mut Kaylee) -> (r: Result<ExecutionResult, ExecutionError>)
        requires
            old(vm)@.wf(),
        ensures
            final(vm)@ == self.spec_execute(old(vm)@).0,
            r == self.spec_execute(old(vm)@).1,
            final(vm)@.wf(),
    ;
}

/// Defines the instruction itself: its registry data, its decoded
/// operand slots, and its human-readable form.
pub trait Instruction: Executable {
    /// The opcode byte this instruction is registered under.
    spec fn spec_opcode() -> u8;

    /// The assembly mnemonic this instruction is registered under.
    spec fn spec_identifier() -> Seq<char>;

    /// The three operand types of this instruction's signature.
    spec fn spec_operand_types() -> Seq<OperandType>;

    /// The three operand values this decoded instruction carries.
    spec fn spec_operand_values(&self) -> Seq<OperandValue>;

    /// Creates a new instruction with concrete values.
    fn new(operand_values: OperandValues) -> (r: Self) where Self: Sized
        ensures
            r.spec_operand_values() == operand_values@,
    ;

    /// Returns the instruction signature.
    fn signature() -> (r: InstructionSignature) where Self: Sized
        ensures
            r.identifier@ == Self::spec_identifier(),
            r.operands@ == Self::spec_operand_types(),
            Self::spec_operand_types().len() == 3,
    ;

    /// Returns the instruction documentation.
    fn documentation() -> (r: InstructionDocumentation) where Self: Sized;

    /// Returns a human-readable form of the instruction.
    fn display(&self) -> (r: String)
        requires
            operands_match(Self::spec_operand_types(), self.spec_operand_values()),
        ensures
            r@ == spec_display(
                Self::spec_identifier(),
                Self::spec_operand_types(),
                self.spec_operand_values(),
            ),
    ;

    /// Returns the concrete operand values.
    fn operand_values(&self) -> (r: &OperandValues)
        ensures
            r@ == self.spec_operand_values(),
    ;

    /// Returns a specific, concrete operand value.
    fn operand_value(&self, index: usize) -> (r: Result<OperandValue, String>)
        ensures
            index <= 2 ==> (r matches Ok(v) && v == self.spec_operand_values()[index as int]),
            index > 2 ==> (r matches Err(e) && e@ == "Index Out Of Bounds"@),
    {
        if index > 2 {
            return Err(String::from_str("Index Out Of Bounds"));
        }

        Ok(self.operand_values()[index])
    }

    /// Gets a concrete value from a register by looking at the target
    /// in an operand value.
    fn get_register_value_for_operand(&self, operand_value_index: usize, vm: &mut Kaylee) -> (r:
        Result<RegisterValue, ()>)
        requires
            old(vm)@.wf(),
            operand_value_index < 3,
            !(self.spec_operand_values()[operand_value_index as int] is Empty),
        ensures
            final(vm)@ == old(vm)@,
            ({
                let register = spec_register_id(
                    self.spec_operand_values()[operand_value_index as int],
                ).unwrap();
                if register < REGISTER_COUNT {
                    r == Ok::<RegisterValue, ()>(old(vm)@.regs[register as int])
                } else {
                    r == Err::<RegisterValue, ()>(())
                }
            }),
    {
        let register = match self.operand_values()[operand_value_index].as_register_id() {
            Some(id) => id,
            None => {
                return Err(());
            },
        };
        vm.register(register)
    }
}

/// Prints an instruction in the instruction stream in a human
/// readable format, from its signature and its concrete operand
/// values.
pub fn display_instruction_with_values(
    signature: InstructionSignature,
    values: &OperandValues,
) -> (r: String)
    requires
        operands_match(signature.operands@, values@),
    ensures
        r@ == spec_display(signature.identifier@, signature.operands@, values@),
{
    let mut output = signature.identifier;
    let piece0 = render_operand(signature.operands[0], &values[0]);
    output.append(piece0.as_str());
    let piece1 = render_operand(signature.operands[1], &values[1]);
    output.append(piece1.as_str());
    let piece2 = render_operand(signature.operands[2], &values[2]);
    output.append(piece2.as_str());
    output
}

/// Renders one operand slot for display.
fn render_operand(t: OperandType, v: &OperandValue) -> (r: String)
    requires
        (t is Unused) <==> (*v is Empty),
    ensures
        r@ == spec_render_operand(t, *v),
{
    match t {
        OperandType::Unused => {
            let empty = String::new();
            proof {
                assert(empty@ =~= spec_render_operand(t, *v));
            }
            empty
        },
        OperandType::RegisterId => {
            let value = match v.as_constant_value() {
                Some(value) => value,
                None => {
                    proof {
                        assert(false);
                    }
                    0
                },
            };
            let mut out = String::from_str(" $");
            let digits = idec_string(value);
            out.append(digits.as_str());
            out
        },
        _ => {
            let value = match v.as_constant_value() {
                Some(value) => value,
                None => {
                    proof {
                        assert(false);
                    }
                    0
                },
            };
            let mut out = String::from_str(" #");
            let digits = idec_string(value);
            out.append(digits.as_str());
            out
        },
    }
}

/// Reads the bytes of one operand of type `t` at `*cursor`, advancing
/// the cursor by the operand's width.
fn read_operand(t: OperandType, instructions: &Program, cursor: &mut usize) -> (r: OperandValue)
    requires
        old(cursor) + operand_width(t) <= instructions@.len(),
        old(cursor) + operand_width(t) <= usize::MAX,
    ensures
        r == spec_operand_value(t, instructions@, *old(cursor) as int),
        *final(cursor) == old(cursor) + operand_width(t),
{
    match t {
        OperandType::Unused => OperandValue::Empty,
        OperandType::RegisterId | OperandType::ConstantByte => {
            let value = instructions.read(*cursor);
            *cursor = *cursor + 1;
            OperandValue::Byte(value)
        },
        OperandType::ConstantHalfWord => {
            let high = instructions.read(*cursor);
            let low = instructions.read(*cursor + 1);
            *cursor = *cursor + 2;
            OperandValue::HalfWord((high as u16) * 256 + (low as u16))
        },
        OperandType::ConstantWord => {
            let a = instructions.read(*cursor);
            let b = instructions.read(*cursor + 1);
            let c = instructions.read(*cursor + 2);
            *cursor = *cursor + 3;
            OperandValue::Word((a as u32) * 65536 + (b as u32) * 256 + (c as u32))
        },
    }
}

/// How many program bytes an operand of type `t` consumes.
fn operand_width_exec(t: OperandType) -> (r: u8)
    ensures
        r == operand_width(t),
{
    match t {
        OperandType::Unused => 0,
        OperandType::RegisterId => 1,
        OperandType::ConstantByte => 1,
        OperandType::ConstantHalfWord => 2,
        OperandType::ConstantWord => 3,
    }
}

/// Decodes the operand values of one instruction from the stream.
///
/// On success the cursor lands at exactly `old(program_counter) + 3`,
/// whatever the signature's operands consumed: every instruction is
/// one opcode byte plus three operand bytes wide, and operand bytes
/// the signature leaves unused are skipped as padding. Operands that
/// would read past the end of the program yield an error, and the
/// cursor does not move.
pub fn consume_and_parse_values(
    signature: InstructionSignature,
    instructions: &Program,
    program_counter: &mut usize,
) -> (r: Result<OperandValues, InstructionDecodeError>)
    requires
        old(program_counter) + 3 <= usize::MAX,
    ensures
        old(program_counter) + signature_width(signature.operands@) <= instructions@.len() ==> {
            &&& r matches Ok(values) && values@ == spec_operands(
                signature.operands@,
                instructions@,
                *old(program_counter) as int,
            )
            &&& *final(program_counter) == old(program_counter) + 3
        },
        old(program_counter) + signature_width(signature.operands@) > instructions@.len() ==> {
            &&& r == Err::<OperandValues, _>(InstructionDecodeError::InvalidValueSize)
            &&& *final(program_counter) == *old(program_counter)
        },
{
    let original_pc = *program_counter;
    let needed = operand_width_exec(signature.operands[0]) + operand_width_exec(
        signature.operands[1],
    ) + operand_width_exec(signature.operands[2]);

    let len = instructions.len();
    if len < needed as usize || original_pc > len - needed as usize {
        return Err(InstructionDecodeError::InvalidValueSize);
    }

    let mut cursor = original_pc;
    let value0 = read_operand(signature.operands[0], instructions, &mut cursor);
    let value1 = read_operand(signature.operands[1], instructions, &mut cursor);
    let value2 = read_operand(signature.operands[2], instructions, &mut cursor);

    *program_counter = original_pc + 3;

    let operand_values: OperandValues = [value0, value1, value2];
    proof {
        assert(operand_values@ =~= spec_operands(
            signature.operands@,
            instructions@,
            original_pc as int,
        ));
    }
    Ok(operand_values)
}

/// The operand types registered for an opcode, or nothing when the
/// opcode is not in the registry.
pub open spec fn spec_operand_types_of(opcode: u8) -> Option<Seq<OperandType>> {
    if opcode == Halt::spec_opcode() {
        Some(Halt::spec_operand_types())
    } else if opcode == Load::spec_opcode() {
        Some(Load::spec_operand_types())
    } else if opcode == Add::spec_opcode() {
        Some(Add::spec_operand_types())
    } else if opcode == Subtract::spec_opcode() {
        Some(Subtract::spec_operand_types())
    } else if opcode == Multiply::spec_opcode() {
        Some(Multiply::spec_operand_types())
    } else if opcode == Divide::spec_opcode() {
        Some(Divide::spec_operand_types())
    } else if opcode == Jump::spec_opcode() {
        Some(Jump::spec_operand_types())
    } else if opcode == JumpForward::spec_opcode() {
        Some(JumpForward::spec_operand_types())
    } else if opcode == JumpBackward::spec_opcode() {
        Some(JumpBackward::spec_operand_types())
    } else if opcode == JumpEqual::spec_opcode() {
        Some(JumpEqual::spec_operand_types())
    } else if opcode == Equal::spec_opcode() {
        Some(Equal::spec_operand_types())
    } else if opcode == NotEqual::spec_opcode() {
        Some(NotEqual::spec_operand_types())
    } else if opcode == GreaterThan::spec_opcode() {
        Some(GreaterThan::spec_operand_types())
    } else if opcode == LessThan::spec_opcode() {
        Some(LessThan::spec_operand_types())
    } else if opcode == GreaterThanOrEqual::spec_opcode() {
        Some(GreaterThanOrEqual::spec_operand_types())
    } else if opcode == LessThanOrEqual::spec_opcode() {
        Some(LessThanOrEqual::spec_operand_types())
    } else {
        None
    }
}

/// Whether an opcode byte is present in the registry.
pub open spec fn spec_opcode_registered(opcode: u8) -> bool {
    spec_operand_types_of(opcode) is Some
}

/// The assembly mnemonic registered for an opcode; empty for an
/// unregistered opcode.
pub open spec fn spec_identifier_of(opcode: u8) -> Seq<char> {
    if opcode == Halt::spec_opcode() {
        Halt::spec_identifier()
    } else if opcode == Load::spec_opcode() {
        Load::spec_identifier()
    } else if opcode == Add::spec_opcode() {
        Add::spec_identifier()
    } else if opcode == Subtract::spec_opcode() {
        Subtract::spec_identifier()
    } else if opcode == Multiply::spec_opcode() {
        Multiply::spec_identifier()
    } else if opcode == Divide::spec_opcode() {
        Divide::spec_identifier()
    } else if opcode == Jump::spec_opcode() {
        Jump::spec_identifier()
    } else if opcode == JumpForward::spec_opcode() {
        JumpForward::spec_identifier()
    } else if opcode == JumpBackward::spec_opcode() {
        JumpBackward::spec_identifier()
    } else if opcode == JumpEqual::spec_opcode() {
        JumpEqual::spec_identifier()
    } else if opcode == Equal::spec_opcode() {
        Equal::spec_identifier()
    } else if opcode == NotEqual::spec_opcode() {
        NotEqual::spec_identifier()
    } else if opcode == GreaterThan::spec_opcode() {
        GreaterThan::spec_identifier()
    } else if opcode == LessThan::spec_opcode() {
        LessThan::spec_identifier()
    } else if opcode == GreaterThanOrEqual::spec_opcode() {
        GreaterThanOrEqual::spec_identifier()
    } else if opcode == LessThanOrEqual::spec_opcode() {
        LessThanOrEqual::spec_identifier()
    } else {
        Seq::<char>::empty()
    }
}

/// What executing the instruction registered under `opcode`, with
/// decoded operand slots `vals`, does to machine state `m`. For an
/// opcode outside the registry this yields the state unchanged and an
/// illegal-opcode error; the execution loop never consults it there.
pub open spec fn spec_execute_opcode(opcode: u8, vals: Seq<OperandValue>, m: MachineView) -> (
    MachineView,
    Result<ExecutionResult, ExecutionError>,
) {
    if opcode == Halt::spec_opcode() {
        spec_halt_execute(vals, m)
    } else if opcode == Load::spec_opcode() {
        spec_load_execute(vals, m)
    } else if opcode == Add::spec_opcode() {
        spec_add_execute(vals, m)
    } else if opcode == Subtract::spec_opcode() {
        spec_subtract_execute(vals, m)
    } else if opcode == Multiply::spec_opcode() {
        spec_multiply_execute(vals, m)
    } else if opcode == Divide::spec_opcode() {
        spec_divide_execute(vals, m)
    } else if opcode == Jump::spec_opcode() {
        spec_jump_execute(vals, m)
    } else if opcode == JumpForward::spec_opcode() {
        spec_jump_forward_execute(vals, m)
    } else if opcode == JumpBackward::spec_opcode() {
        spec_jump_backward_execute(vals, m)
    } else if opcode == JumpEqual::spec_opcode() {
        spec_jump_equal_execute(vals, m)
    } else if opcode == Equal::spec_opcode() {
        spec_equal_execute(vals, m)
    } else if opcode == NotEqual::spec_opcode() {
        spec_not_equal_execute(vals, m)
    } else if opcode == GreaterThan::spec_opcode() {
        spec_greater_than_execute(vals, m)
    } else if opcode == LessThan::spec_opcode() {
        spec_less_than_execute(vals, m)
    } else if opcode == GreaterThanOrEqual::spec_opcode() {
        spec_greater_than_or_equal_execute(vals, m)
    } else if opcode == LessThanOrEqual::spec_opcode() {
        spec_less_than_or_equal_execute(vals, m)
    } else {
        (m, Err(ExecutionError::Decode(InstructionDecodeError::IllegalOpcode)))
    }
}

/// A decoded instruction: one variant for every opcode in the
/// registry. Decoding constructs one of these per fetch cycle; it is
/// executed once and discarded.
pub enum DecodedInstruction {
    Halt(Halt),
    Load(Load),
    Add(Add),
    Subtract(Subtract),
    Multiply(Multiply),
    Divide(Divide),
    Jump(Jump),
    JumpForward(JumpForward),
    JumpBackward(JumpBackward),
    JumpEqual(JumpEqual),
    Equal(Equal),
    NotEqual(NotEqual),
    GreaterThan(GreaterThan),
    LessThan(LessThan),
    GreaterThanOrEqual(GreaterThanOrEqual),
    LessThanOrEqual(LessThanOrEqual),
}

impl DecodedInstruction {
    /// The opcode this decoded instruction was decoded from.
    pub open spec fn spec_opcode(&self) -> u8 {
        match self {
            DecodedInstruction::Halt(_) => Halt::spec_opcode(),
            DecodedInstruction::Load(_) => Load::spec_opcode(),
            DecodedInstruction::Add(_) => Add::spec_opcode(),
            DecodedInstruction::Subtract(_) => Subtract::spec_opcode(),
            DecodedInstruction::Multiply(_) => Multiply::spec_opcode(),
            DecodedInstruction::Divide(_) => Divide::spec_opcode(),
            DecodedInstruction::Jump(_) => Jump::spec_opcode(),
            DecodedInstruction::JumpForward(_) => JumpForward::spec_opcode(),
            DecodedInstruction::JumpBackward(_) => JumpBackward::spec_opcode(),
            DecodedInstruction::JumpEqual(_) => JumpEqual::spec_opcode(),
            DecodedInstruction::Equal(_) => Equal::spec_opcode(),
            DecodedInstruction::NotEqual(_) => NotEqual::spec_opcode(),
            DecodedInstruction::GreaterThan(_) => GreaterThan::spec_opcode(),
            DecodedInstruction::LessThan(_) => LessThan::spec_opcode(),
            DecodedInstruction::GreaterThanOrEqual(_) => GreaterThanOrEqual::spec_opcode(),
            DecodedInstruction::LessThanOrEqual(_) => LessThanOrEqual::spec_opcode(),
        }
    }

    /// The three operand slots this decoded instruction carries.
    pub open spec fn operand_seq(&self) -> Seq<OperandValue> {
        match self {
            DecodedInstruction::Halt(i) => i.spec_operand_values(),
            DecodedInstruction::Load(i) => i.spec_operand_values(),
            DecodedInstruction::Add(i) => i.spec_operand_values(),
            DecodedInstruction::Subtract(i) => i.spec_operand_values(),
            DecodedInstruction::Multiply(i) => i.spec_operand_values(),
            DecodedInstruction::Divide(i) => i.spec_operand_values(),
            DecodedInstruction::Jump(i) => i.spec_operand_values(),
            DecodedInstruction::JumpForward(i) => i.spec_operand_values(),
            DecodedInstruction::JumpBackward(i) => i.spec_operand_values(),
            DecodedInstruction::JumpEqual(i) => i.spec_operand_values(),
            DecodedInstruction::Equal(i) => i.spec_operand_values(),
            DecodedInstruction::NotEqual(i) => i.spec_operand_values(),
            DecodedInstruction::GreaterThan(i) => i.spec_operand_values(),
            DecodedInstruction::LessThan(i) => i.spec_operand_values(),
            DecodedInstruction::GreaterThanOrEqual(i) => i.spec_operand_values(),
            DecodedInstruction::LessThanOrEqual(i) => i.spec_operand_values(),
        }
    }

    /// A decoded instruction is well formed when its operand slots
    /// fit its opcode's registered signature.
    pub open spec fn wf(&self) -> bool {
        operands_match(spec_operand_types_of(self.spec_opcode()).unwrap(), self.operand_seq())
    }

    /// Executing a decoded instruction means executing the semantics
    /// registered for its opcode on its operand slots.
    pub proof fn lemma_execute_is_opcode_dispatch(&self, m: MachineView)
        ensures
            self.spec_execute(m) == spec_execute_opcode(self.spec_opcode(), self.operand_seq(), m),
    {
    }

    /// Returns a human-readable form of the instruction.
    pub fn display(&self) -> (r: String)
        requires
            self.wf(),
        ensures
            r@ == spec_display(
                spec_identifier_of(self.spec_opcode()),
                spec_operand_types_of(self.spec_opcode()).unwrap(),
                self.operand_seq(),
            ),
    {
        match self {
            DecodedInstruction::Halt(i) => i.display(),
            DecodedInstruction::Load(i) => i.display(),
            DecodedInstruction::Add(i) => i.display(),
            DecodedInstruction::Subtract(i) => i.display(),
            DecodedInstruction::Multiply(i) => i.display(),
            DecodedInstruction::Divide(i) => i.display(),
            DecodedInstruction::Jump(i) => i.display(),
            DecodedInstruction::JumpForward(i) => i.display(),
            DecodedInstruction::JumpBackward(i) => i.display(),
            DecodedInstruction::JumpEqual(i) => i.display(),
            DecodedInstruction::Equal(i) => i.display(),
            DecodedInstruction::NotEqual(i) => i.display(),
            DecodedInstruction::GreaterThan(i) => i.display(),
            DecodedInstruction::LessThan(i) => i.display(),
            DecodedInstruction::GreaterThanOrEqual(i) => i.display(),
            DecodedInstruction::LessThanOrEqual(i) => i.display(),
        }
    }
}

impl Executable for DecodedInstruction {
    open spec fn spec_execute(&self, m: MachineView) -> (MachineView, Result<
        ExecutionResult,
        ExecutionError,
    >) {
        match self {
            DecodedInstruction::Halt(i) => i.spec_execute(m),
            DecodedInstruction::Load(i) => i.spec_execute(m),
            DecodedInstruction::Add(i) => i.spec_execute(m),
            DecodedInstruction::Subtract(i) => i.spec_execute(m),
            DecodedInstruction::Multiply(i) => i.spec_execute(m),
            DecodedInstruction::Divide(i) => i.spec_execute(m),
            DecodedInstruction::Jump(i) => i.spec_execute(m),
            DecodedInstruction::JumpForward(i) => i.spec_execute(m),
            DecodedInstruction::JumpBackward(i) => i.spec_execute(m),
            DecodedInstruction::JumpEqual(i) => i.spec_execute(m),
            DecodedInstruction::Equal(i) => i.spec_execute(m),
            DecodedInstruction::NotEqual(i) => i.spec_execute(m),
            DecodedInstruction::GreaterThan(i) => i.spec_execute(m),
            DecodedInstruction::LessThan(i) => i.spec_execute(m),
            DecodedInstruction::GreaterThanOrEqual(i) => i.spec_execute(m),
            DecodedInstruction::LessThanOrEqual(i) => i.spec_execute(m),
        }
    }

    fn execute(&self, vm: &mut Kaylee) -> (r: Result<ExecutionResult, ExecutionError>) {
        match self {
            DecodedInstruction::Halt(i) => i.execute(vm),
            DecodedInstruction::Load(i) => i.execute(vm),
            DecodedInstruction::Add(i) => i.execute(vm),
            DecodedInstruction::Subtract(i) => i.execute(vm),
            DecodedInstruction::Multiply(i) => i.execute(vm),
            DecodedInstruction::Divide(i) => i.execute(vm),
            DecodedInstruction::Jump(i) => i.execute(vm),
            DecodedInstruction::JumpForward(i) => i.execute(vm),
            DecodedInstruction::JumpBackward(i) => i.execute(vm),
            DecodedInstruction::JumpEqual(i) => i.execute(vm),
            DecodedInstruction::Equal(i) => i.execute(vm),
            DecodedInstruction::NotEqual(i) => i.execute(vm),
            DecodedInstruction::GreaterThan(i) => i.execute(vm),
            DecodedInstruction::LessThan(i) => i.execute(vm),
            DecodedInstruction::GreaterThanOrEqual(i) => i.execute(vm),
            DecodedInstruction::LessThanOrEqual(i) => i.execute(vm),
        }
    }
}

/// Decoding a full signature yields operand slots that fit it: a slot
/// is empty exactly where the signature leaves it unused.
pub proof fn lemma_spec_operands_match(ops: Seq<OperandType>, prog: Seq<u8>, at: int)
    requires
        ops.len() == 3,
    ensures
        operands_match(ops, spec_operands(ops, prog, at)),
{
    let vals = spec_operands(ops, prog, at);
    assert forall|i: int| 0 <= i < 3 implies ((ops[i] is Unused) <==> (vals[i] is Empty)) by {
        if i == 0 {
            assert(vals[0] == spec_operand_value(ops[0], prog, at));
        } else if i == 1 {
            assert(vals[1] == spec_operand_value(ops[1], prog, at + operand_width(ops[0])));
        } else {
            assert(vals[2] == spec_operand_value(
                ops[2],
                prog,
                at + operand_width(ops[0]) + operand_width(ops[1]),
            ));
        }
    }
}

/// Builds one concrete instruction of type `T` by decoding its
/// operand values from the stream.
pub fn build<T: Instruction>(instructions: &Program, program_counter: &mut usize) -> (r: Result<
    T,
    InstructionDecodeError,
>)
    requires
        *old(program_counter) + 3 <= usize::MAX,
    ensures
        *old(program_counter) + signature_width(T::spec_operand_types())
            <= instructions@.len() ==> {
            &&& r matches Ok(instruction) && instruction.spec_operand_values() == spec_operands(
                T::spec_operand_types(),
                instructions@,
                *old(program_counter) as int,
            )
            &&& *final(program_counter) == *old(program_counter) + 3
        },
        *old(program_counter) + signature_width(T::spec_operand_types())
            > instructions@.len() ==> {
            &&& r == Err::<T, _>(InstructionDecodeError::InvalidValueSize)
            &&& *final(program_counter) == *old(program_counter)
        },
{
    let signature = T::signature();
    let values = match consume_and_parse_values(signature, instructions, program_counter) {
        Ok(values) => values,
        Err(e) => {
            return Err(e);
        },
    };
    Ok(T::new(values))
}

/// Decodes the next instruction in the program stream.
///
/// Yields nothing when the program counter is at or past the end of
/// the program. Otherwise it consumes the opcode byte; an opcode
/// outside the registry yields `IllegalOpcode`, an operand window
/// reaching past the end of the program yields `InvalidValueSize`,
/// and on success the program counter lands at exactly four bytes
/// past the start of the instruction.
pub fn decode_next_instruction(instructions: &Program, program_counter: &mut usize) -> (r: Option<
    Result<DecodedInstruction, InstructionDecodeError>,
>)
    requires
        instructions@.len() + 4 <= usize::MAX,
    ensures
        *old(program_counter) >= instructions@.len() ==> {
            &&& r is None
            &&& *final(program_counter) == *old(program_counter)
        },
        *old(program_counter) < instructions@.len() ==> {
            let opcode = instructions@[*old(program_counter) as int];
            &&& !spec_opcode_registered(opcode) ==> {
                &&& r == Some(
                    Err::<DecodedInstruction, _>(InstructionDecodeError::IllegalOpcode),
                )
                &&& *final(program_counter) == *old(program_counter) + 1
            }
            &&& spec_opcode_registered(opcode) && *old(program_counter) + 1 + signature_width(
                spec_operand_types_of(opcode).unwrap(),
            ) > instructions@.len() ==> {
                &&& r == Some(
                    Err::<DecodedInstruction, _>(InstructionDecodeError::InvalidValueSize),
                )
                &&& *final(program_counter) == *old(program_counter) + 1
            }
            &&& spec_opcode_registered(opcode) && *old(program_counter) + 1 + signature_width(
                spec_operand_types_of(opcode).unwrap(),
            ) <= instructions@.len() ==> {
                &&& r matches Some(Ok(decoded))
                &&& decoded.spec_opcode() == opcode
                &&& decoded.operand_seq() == spec_operands(
                    spec_operand_types_of(opcode).unwrap(),
                    instructions@,
                    *old(program_counter) + 1,
                )
                &&& decoded.wf()
                &&& *final(program_counter) == *old(program_counter) + 4
            }
        },
{
    if *program_counter >= instructions.len() {
        return None;
    }

    let opcode: Byte = instructions.read(*program_counter);
    *program_counter = *program_counter + 1;

    proof {
        if spec_opcode_registered(opcode) {
            lemma_spec_operands_match(
                spec_operand_types_of(opcode).unwrap(),
                instructions@,
                *program_counter as int,
            );
        }
    }

    Some(
        if opcode == Halt::OPCODE {
            match build::<Halt>(instructions, program_counter) {
                Ok(i) => Ok(DecodedInstruction::Halt(i)),
                Err(e) => Err(e),
            }
        } else if opcode == Load::OPCODE {
            match build::<Load>(instructions, program_counter) {
                Ok(i) => Ok(DecodedInstruction::Load(i)),
                Err(e) => Err(e),
            }
        } else if opcode == Add::OPCODE {
            match build::<Add>(instructions, program_counter) {
                Ok(i) => Ok(DecodedInstruction::Add(i)),
                Err(e) => Err(e),
            }
        } else if opcode == Subtract::OPCODE {
            match build::<Subtract>(instructions, program_counter) {
                Ok(i) => Ok(DecodedInstruction::Subtract(i)),
                Err(e) => Err(e),
            }
        } else if opcode == Multiply::OPCODE {
            match build::<Multiply>(instructions, program_counter) {
                Ok(i) => Ok(DecodedInstruction::Multiply(i)),
                Err(e) => Err(e),
            }
        } else if opcode == Divide::OPCODE {
            match build::<Divide>(instructions, program_counter) {
                Ok(i) => Ok(DecodedInstruction::Divide(i)),
                Err(e) => Err(e),
            }
        } else if opcode == Jump::OPCODE {
            match build::<Jump>(instructions, program_counter) {
                Ok(i) => Ok(DecodedInstruction::Jump(i)),
                Err(e) => Err(e),
            }
        } else if opcode == JumpForward::OPCODE {
            match build::<JumpForward>(instructions, program_counter) {
                Ok(i) => Ok(DecodedInstruction::JumpForward(i)),
                Err(e) => Err(e),
            }
        } else if opcode == JumpBackward::OPCODE {
            match build::<JumpBackward>(instructions, program_counter) {
                Ok(i) => Ok(DecodedInstruction::JumpBackward(i)),
                Err(e) => Err(e),
            }
        } else if opcode == JumpEqual::OPCODE {
            match build::<JumpEqual>(instructions, program_counter) {
                Ok(i) => Ok(DecodedInstruction::JumpEqual(i)),
                Err(e) => Err(e),
            }
        } else if opcode == Equal::OPCODE {
            match build::<Equal>(instructions, program_counter) {
                Ok(i) => Ok(DecodedInstruction::Equal(i)),
                Err(e) => Err(e),
            }
        } else if opcode == NotEqual::OPCODE {
            match build::<NotEqual>(instructions, program_counter) {
                Ok(i) => Ok(DecodedInstruction::NotEqual(i)),
                Err(e) => Err(e),
            }
        } else if opcode == GreaterThan::OPCODE {
            match build::<GreaterThan>(instructions, program_counter) {
                Ok(i) => Ok(DecodedInstruction::GreaterThan(i)),
                Err(e) => Err(e),
            }
        } else if opcode == LessThan::OPCODE {
            match build::<LessThan>(instructions, program_counter) {
                Ok(i) => Ok(DecodedInstruction::LessThan(i)),
                Err(e) => Err(e),
            }
        } else if opcode == GreaterThanOrEqual::OPCODE {
            match build::<GreaterThanOrEqual>(instructions, program_counter) {
                Ok(i) => Ok(DecodedInstruction::GreaterThanOrEqual(i)),
                Err(e) => Err(e),
            }
        } else if opcode == LessThanOrEqual::OPCODE {
            match build::<LessThanOrEqual>(instructions, program_counter) {
                Ok(i) => Ok(DecodedInstruction::LessThanOrEqual(i)),
                Err(e) => Err(e),
            }
        } else {
            Err(InstructionDecodeError::IllegalOpcode)
        },
    )
}

/// One registry entry: a mnemonic, its opcode byte, and the operand
/// signature of the instruction.
pub type RegisteredInstruction = (&'static str, u8, [OperandType; 3]);

/// The opcode registered under an assembly mnemonic, or nothing when
/// no instruction carries that mnemonic.
pub open spec fn spec_lookup_mnemonic(name: Seq<char>) -> Option<u8> {
    if name == Halt::spec_identifier() {
        Some(Halt::spec_opcode())
    } else if name == Load::spec_identifier() {
        Some(Load::spec_opcode())
    } else if name == Add::spec_identifier() {
        Some(Add::spec_opcode())
    } else if name == Subtract::spec_identifier() {
        Some(Subtract::spec_opcode())
    } else if name == Multiply::spec_identifier() {
        Some(Multiply::spec_opcode())
    } else if name == Divide::spec_identifier() {
        Some(Divide::spec_opcode())
    } else if name == Jump::spec_identifier() {
        Some(Jump::spec_opcode())
    } else if name == JumpForward::spec_identifier() {
        Some(JumpForward::spec_opcode())
    } else if name == JumpBackward::spec_identifier() {
        Some(JumpBackward::spec_opcode())
    } else if name == JumpEqual::spec_identifier() {
        Some(JumpEqual::spec_opcode())
    } else if name == Equal::spec_identifier() {
        Some(Equal::spec_opcode())
    } else if name == NotEqual::spec_identifier() {
        Some(NotEqual::spec_opcode())
    } else if name == GreaterThan::spec_identifier() {
        Some(GreaterThan::spec_opcode())
    } else if name == LessThan::spec_identifier() {
        Some(LessThan::spec_opcode())
    } else if name == GreaterThanOrEqual::spec_identifier() {
        Some(GreaterThanOrEqual::spec_opcode())
    } else if name == LessThanOrEqual::spec_identifier() {
        Some(LessThanOrEqual::spec_opcode())
    } else {
        None
    }
}

/// Law: the registry pairs mnemonics and opcodes one to one: every
/// registered opcode's mnemonic looks up to that opcode again, so no
/// two instructions share a mnemonic and no mnemonic names two
/// opcodes.
pub proof fn lemma_registry_coherent(opcode: u8)
    requires
        spec_opcode_registered(opcode),
    ensures
        spec_lookup_mnemonic(spec_identifier_of(opcode)) == Some(opcode),
{
    reveal_strlit("HALT");
    reveal_strlit("LOAD");
    reveal_strlit("ADD");
    reveal_strlit("SUB");
    reveal_strlit("MUL");
    reveal_strlit("DIV");
    reveal_strlit("JUMP");
    reveal_strlit("JUMPF");
    reveal_strlit("JUMPB");
    reveal_strlit("JUMPE");
    reveal_strlit("EQ");
    reveal_strlit("NEQ");
    reveal_strlit("GT");
    reveal_strlit("LT");
    reveal_strlit("GTE");
    reveal_strlit("LTE");
    assert("HALT"@[0] != "LOAD"@[0]);
    assert("HALT"@[0] != "JUMP"@[0]);
    assert("LOAD"@[0] != "JUMP"@[0]);
    assert("ADD"@[0] != "SUB"@[0]);
    assert("ADD"@[0] != "MUL"@[0]);
    assert("ADD"@[0] != "DIV"@[0]);
    assert("ADD"@[0] != "NEQ"@[0]);
    assert("ADD"@[0] != "GTE"@[0]);
    assert("ADD"@[0] != "LTE"@[0]);
    assert("SUB"@[0] != "MUL"@[0]);
    assert("SUB"@[0] != "DIV"@[0]);
    assert("SUB"@[0] != "NEQ"@[0]);
    assert("SUB"@[0] != "GTE"@[0]);
    assert("SUB"@[0] != "LTE"@[0]);
    assert("MUL"@[0] != "DIV"@[0]);
    assert("MUL"@[0] != "NEQ"@[0]);
    assert("MUL"@[0] != "GTE"@[0]);
    assert("MUL"@[0] != "LTE"@[0]);
    assert("DIV"@[0] != "NEQ"@[0]);
    assert("DIV"@[0] != "GTE"@[0]);
    assert("DIV"@[0] != "LTE"@[0]);
    assert("JUMPF"@[4] != "JUMPB"@[4]);
    assert("JUMPF"@[4] != "JUMPE"@[4]);
    assert("JUMPB"@[4] != "JUMPE"@[4]);
    assert("EQ"@[0] != "GT"@[0]);
    assert("EQ"@[0] != "LT"@[0]);
    assert("NEQ"@[0] != "GTE"@[0]);
    assert("NEQ"@[0] != "LTE"@[0]);
    assert("GT"@[0] != "LT"@[0]);
    assert("GTE"@[0] != "LTE"@[0]);
    if opcode == Halt::spec_opcode() {
        assert(spec_identifier_of(opcode) == "HALT"@);
        assert(spec_lookup_mnemonic("HALT"@) == Some(Halt::spec_opcode()));
    } else if opcode == Load::spec_opcode() {
        assert(spec_identifier_of(opcode) == "LOAD"@);
        assert(spec_lookup_mnemonic("LOAD"@) == Some(Load::spec_opcode()));
    } else if opcode == Add::spec_opcode() {
        assert(spec_identifier_of(opcode) == "ADD"@);
        assert(spec_lookup_mnemonic("ADD"@) == Some(Add::spec_opcode()));
    } else if opcode == Subtract::spec_opcode() {
        assert(spec_identifier_of(opcode) == "SUB"@);
        assert(spec_lookup_mnemonic("SUB"@) == Some(Subtract::spec_opcode()));
    } else if opcode == Multiply::spec_opcode() {
        assert(spec_identifier_of(opcode) == "MUL"@);
        assert(spec_lookup_mnemonic("MUL"@) == Some(Multiply::spec_opcode()));
    } else if opcode == Divide::spec_opcode() {
        assert(spec_identifier_of(opcode) == "DIV"@);
        assert(spec_lookup_mnemonic("DIV"@) == Some(Divide::spec_opcode()));
    } else if opcode == Jump::spec_opcode() {
        assert(spec_identifier_of(opcode) == "JUMP"@);
        assert(spec_lookup_mnemonic("JUMP"@) == Some(Jump::spec_opcode()));
    } else if opcode == JumpForward::spec_opcode() {
        assert(spec_identifier_of(opcode) == "JUMPF"@);
        assert(spec_lookup_mnemonic("JUMPF"@) == Some(JumpForward::spec_opcode()));
    } else if opcode == JumpBackward::spec_opcode() {
        assert(spec_identifier_of(opcode) == "JUMPB"@);
        assert(spec_lookup_mnemonic("JUMPB"@) == Some(JumpBackward::spec_opcode()));
    } else if opcode == JumpEqual::spec_opcode() {
        assert(spec_identifier_of(opcode) == "JUMPE"@);
        assert(spec_lookup_mnemonic("JUMPE"@) == Some(JumpEqual::spec_opcode()));
    } else if opcode == Equal::spec_opcode() {
        assert(spec_identifier_of(opcode) == "EQ"@);
        assert(spec_lookup_mnemonic("EQ"@) == Some(Equal::spec_opcode()));
    } else if opcode == NotEqual::spec_opcode() {
        assert(spec_identifier_of(opcode) == "NEQ"@);
        assert(spec_lookup_mnemonic("NEQ"@) == Some(NotEqual::spec_opcode()));
    } else if opcode == GreaterThan::spec_opcode() {
        assert(spec_identifier_of(opcode) == "GT"@);
        assert(spec_lookup_mnemonic("GT"@) == Some(GreaterThan::spec_opcode()));
    } else if opcode == LessThan::spec_opcode() {
        assert(spec_identifier_of(opcode) == "LT"@);
        assert(spec_lookup_mnemonic("LT"@) == Some(LessThan::spec_opcode()));
    } else if opcode == GreaterThanOrEqual::spec_opcode() {
        assert(spec_identifier_of(opcode) == "GTE"@);
        assert(spec_lookup_mnemonic("GTE"@) == Some(GreaterThanOrEqual::spec_opcode()));
    } else if opcode == LessThanOrEqual::spec_opcode() {
        assert(spec_identifier_of(opcode) == "LTE"@);
        assert(spec_lookup_mnemonic("LTE"@) == Some(LessThanOrEqual::spec_opcode()));
    }
}

/// The registry of all allowed instructions, including signatures.
/// Useful for parsing, listing, and examining instructions. It is a
/// fixed table: there is no dynamic registration at runtime.
pub struct InstructionRegistry {}

impl InstructionRegistry {
    /// Gets a registered instruction from the registry by its
    /// mnemonic, if one carries it.
    pub fn get(operation: &str) -> (r: Option<RegisteredInstruction>)
        ensures
            match spec_lookup_mnemonic(operation@) {
                Some(opcode) => {
                    &&& r matches Some(entry)
                    &&& entry.0@ == operation@
                    &&& entry.1 == opcode
                    &&& entry.2@ == spec_operand_types_of(opcode).unwrap()
                },
                None => r is None,
            },
    {
        if str_eq(operation, "HALT") {
            Some(("HALT", Halt::OPCODE, Halt::signature().operands))
        } else if str_eq(operation, "LOAD") {
            Some(("LOAD", Load::OPCODE, Load::signature().operands))
        } else if str_eq(operation, "ADD") {
            Some(("ADD", Add::OPCODE, Add::signature().operands))
        } else if str_eq(operation, "SUB") {
            Some(("SUB", Subtract::OPCODE, Subtract::signature().operands))
        } else if str_eq(operation, "MUL") {
            Some(("MUL", Multiply::OPCODE, Multiply::signature().operands))
        } else if str_eq(operation, "DIV") {
            Some(("DIV", Divide::OPCODE, Divide::signature().operands))
        } else if str_eq(operation, "JUMP") {
            Some(("JUMP", Jump::OPCODE, Jump::signature().operands))
        } else if str_eq(operation, "JUMPF") {
            Some(("JUMPF", JumpForward::OPCODE, JumpForward::signature().operands))
        } else if str_eq(operation, "JUMPB") {
            Some(("JUMPB", JumpBackward::OPCODE, JumpBackward::signature().operands))
        } else if str_eq(operation, "JUMPE") {
            Some(("JUMPE", JumpEqual::OPCODE, JumpEqual::signature().operands))
        } else if str_eq(operation, "EQ") {
            Some(("EQ", Equal::OPCODE, Equal::signature().operands))
        } else if str_eq(operation, "NEQ") {
            Some(("NEQ", NotEqual::OPCODE, NotEqual::signature().operands))
        } else if str_eq(operation, "GT") {
            Some(("GT", GreaterThan::OPCODE, GreaterThan::signature().operands))
        } else if str_eq(operation, "LT") {
            Some(("LT", LessThan::OPCODE, LessThan::signature().operands))
        } else if str_eq(operation, "GTE") {
            Some(("GTE", GreaterThanOrEqual::OPCODE, GreaterThanOrEqual::signature().operands))
        } else if str_eq(operation, "LTE") {
            Some(("LTE", LessThanOrEqual::OPCODE, LessThanOrEqual::signature().operands))
        } else {
            None
        }
    }
}

} // verus!
