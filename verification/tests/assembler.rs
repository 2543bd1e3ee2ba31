use kaylee::assembly::assembler::{into_bytecode, Assembler, AssemblerError};
use kaylee::program::Program;
use kaylee::vm::Kaylee;

#[test]
pub fn assembler_test_into_bytecode() {
    let parsed = vec![
        vec!["LOAD", "1", "500"],
        vec!["ADD", "2", "3", "2"],
    ];

    let expected = Program::from(vec![
        30, 1, 1, 244,
        70, 2, 3, 2,
    ]);

    let assembler = Assembler::new();
    let actual = assembler.assemble_parsed_asm(parsed).unwrap();

    assert_eq!(expected, actual);
}

#[test]
pub fn parser_test_into_bytecode() {
    let parsed = vec![
        vec!["LOAD", "1", "500"],
        vec!["ADD", "2", "3", "2"],
    ];

    let expected = Program::from(vec![
        30, 1, 1, 244,
        70, 2, 3, 2,
    ]);

    let actual = into_bytecode(parsed).unwrap();

    assert_eq!(expected, actual);
}

#[test]
fn test_assemble_halt_pads_to_four_bytes() {
    let program = into_bytecode(vec![vec!["HALT"]]).unwrap();
    assert_eq!(Program::from(vec![1, 0, 0, 0]), program);
}

#[test]
fn test_assemble_jump_wide_constant() {
    // a three-byte constant is emitted big-endian
    let program = into_bytecode(vec![vec!["JUMP", "500"]]).unwrap();
    assert_eq!(Program::from(vec![50, 0, 1, 244]), program);
}

#[test]
fn test_assemble_unknown_mnemonic() {
    assert_eq!(
        Err(AssemblerError::UnknownMnemonic),
        into_bytecode(vec![vec!["DIE", "1"]])
    );
}

#[test]
fn test_assemble_wrong_operand_count() {
    assert_eq!(
        Err(AssemblerError::WrongOperandCount),
        into_bytecode(vec![vec!["LOAD", "1"]])
    );
}

#[test]
fn test_assemble_malformed_operand() {
    assert_eq!(
        Err(AssemblerError::MalformedOperand),
        into_bytecode(vec![vec!["LOAD", "x", "500"]])
    );
}

#[test]
fn test_assemble_register_out_of_range() {
    // 40 is not a valid register
    assert_eq!(
        Err(AssemblerError::OperandOutOfRange),
        into_bytecode(vec![vec!["LOAD", "40", "500"]])
    );
}

#[test]
fn test_assemble_constant_out_of_range() {
    // 1000000 does not fit the two-byte LOAD constant
    assert_eq!(
        Err(AssemblerError::OperandOutOfRange),
        into_bytecode(vec![vec!["LOAD", "15", "1000000"]])
    );
}

#[test]
fn test_assembled_program_runs() {
    // round trip through the machine: what the assembler emits, the
    // decoder reads back
    let program = into_bytecode(vec![
        vec!["LOAD", "0", "21"],
        vec!["ADD", "1", "0", "0"],
        vec!["HALT"],
    ])
    .unwrap();

    let mut vm = Kaylee::new();
    vm.run(program).unwrap();
    assert_eq!(21, vm.register(0).unwrap());
    assert_eq!(42, vm.register(1).unwrap());
    assert!(vm.halted());
}
