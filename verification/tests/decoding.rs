use kaylee::instructions::data::Load;
use kaylee::instructions::machine::Halt;
use kaylee::instructions::{
    consume_and_parse_values, decode_next_instruction, Instruction, InstructionDecodeError,
    InstructionRegistry, OperandType, OperandValue,
};
use kaylee::program::Program;
use kaylee::vm::{ExecutionError, ExecutionResult, Kaylee};

#[test]
fn test_illegal_opcode_stops_the_run() {
    // 200 is not a registered opcode; the run must end with an error
    // without touching any register
    let program = Program::from(vec![200, 0, 0, 0]);

    let mut vm = Kaylee::new();
    let result = vm.run(program);

    assert_eq!(
        Err(ExecutionError::Decode(InstructionDecodeError::IllegalOpcode)),
        result
    );
    for register in 0..32 {
        assert_eq!(0, vm.register(register).unwrap());
    }
}

#[test]
fn test_illegal_opcode_decode() {
    let program = Program::from(vec![200, 0, 0, 0]);
    let mut program_counter: usize = 0;

    let decoded = decode_next_instruction(&program, &mut program_counter);
    assert!(matches!(
        decoded,
        Some(Err(InstructionDecodeError::IllegalOpcode))
    ));
    assert_eq!(1, program_counter);
}

#[test]
fn test_decode_at_end_yields_nothing() {
    let program = Program::from(vec![30, 4, 1, 244]);
    let mut program_counter: usize = 4;

    assert!(decode_next_instruction(&program, &mut program_counter).is_none());
    assert_eq!(4, program_counter);
}

#[test]
fn test_truncated_operands_are_an_error() {
    // a LOAD whose operand window reaches past the end of the program
    let program = Program::from(vec![30, 4]);

    let mut vm = Kaylee::new();
    assert_eq!(
        Err(ExecutionError::Decode(InstructionDecodeError::InvalidValueSize)),
        vm.run(program)
    );
}

#[test]
fn test_decode_advances_by_four() {
    let program = Program::from(vec![30, 4, 1, 244, 1, 0, 0, 0]);
    let mut program_counter: usize = 0;

    let decoded = decode_next_instruction(&program, &mut program_counter);
    assert!(matches!(decoded, Some(Ok(_))));
    assert_eq!(4, program_counter);
}

#[test]
fn test_display_decoded_instructions() {
    let program = Program::from(vec![
        30, 1, 1, 244, // LOAD $1 #500
        70, 2, 3, 2, // ADD $2 $3 $2
        50, 0, 1, 244, // JUMP #500
        1, 0, 0, 0, // HALT
    ]);
    let mut program_counter: usize = 0;
    let mut rendered: Vec<String> = Vec::new();

    while let Some(result) = decode_next_instruction(&program, &mut program_counter) {
        rendered.push(result.unwrap().display());
    }

    assert_eq!(
        vec!["LOAD $1 #500", "ADD $2 $3 $2", "JUMP #500", "HALT"],
        rendered
    );
}

#[test]
fn test_consume_and_parse_values_reads_operands() {
    let program = Program::from(vec![4, 1, 244, 9]);
    let mut cursor: usize = 0;

    let values = consume_and_parse_values(Load::signature(), &program, &mut cursor).unwrap();

    assert_eq!(OperandValue::Byte(4), values[0]);
    assert_eq!(OperandValue::HalfWord(500), values[1]);
    assert_eq!(OperandValue::Empty, values[2]);
    assert_eq!(3, cursor);
}

#[test]
fn test_consume_and_parse_values_skips_padding() {
    // HALT consumes no operand bytes, yet the cursor still lands
    // three bytes further: unused operand bytes are padding
    let program = Program::from(vec![7, 8, 9]);
    let mut cursor: usize = 0;

    let values = consume_and_parse_values(Halt::signature(), &program, &mut cursor).unwrap();

    assert_eq!(OperandValue::Empty, values[0]);
    assert_eq!(OperandValue::Empty, values[1]);
    assert_eq!(OperandValue::Empty, values[2]);
    assert_eq!(3, cursor);
}

#[test]
fn test_registry_lookup_by_mnemonic() {
    let entry = InstructionRegistry::get("ADD").unwrap();
    assert_eq!("ADD", entry.0);
    assert_eq!(70, entry.1);
    assert!(matches!(entry.2[0], OperandType::RegisterId));
    assert!(matches!(entry.2[1], OperandType::RegisterId));
    assert!(matches!(entry.2[2], OperandType::RegisterId));

    let entry = InstructionRegistry::get("LOAD").unwrap();
    assert_eq!(30, entry.1);
    assert!(matches!(entry.2[1], OperandType::ConstantHalfWord));

    assert!(InstructionRegistry::get("NOPE").is_none());
    assert!(InstructionRegistry::get("add").is_none());
}

#[test]
fn test_run_next_steps_one_cycle() {
    let program = Program::from(vec![
        30, 4, 1, 244, // LOAD $4 #500
        30, 30, 0, 12, // LOAD $30 #12
    ]);

    let mut vm = Kaylee::new();

    let first = vm.run_next(&program);
    assert_eq!(Some(Ok(ExecutionResult::Value(500))), first);
    assert_eq!(4, vm.program_counter());
    assert_eq!(500, vm.register(4).unwrap());
    assert_eq!(0, vm.register(30).unwrap());

    let second = vm.run_next(&program);
    assert_eq!(Some(Ok(ExecutionResult::Value(12))), second);
    assert_eq!(8, vm.program_counter());
    assert_eq!(12, vm.register(30).unwrap());

    assert_eq!(None, vm.run_next(&program));
}
