use kaylee::instructions::data::Load;
use kaylee::instructions::machine::Halt;
use kaylee::instructions::program::{Jump, JumpBackward, JumpEqual, JumpForward};
use kaylee::program::Program;
use kaylee::vm::{ExecutionError, Kaylee};

#[test]
fn test_jump() {
    let program = Program::from(vec![
        // A bunch of random load instructions
        Load::OPCODE, 0, 0, 100,
        Load::OPCODE, 1, 0, 100,
        Jump::OPCODE, 0, 0, 24,
        Load::OPCODE, 2, 0, 100,
        Load::OPCODE, 3, 0, 100,
        Load::OPCODE, 4, 0, 100,
        Load::OPCODE, 5, 0, 100,
    ]);

    let mut vm = Kaylee::new();
    vm.run(program).unwrap();

    // Should set these
    assert_eq!(100, vm.register(0).unwrap());
    assert_eq!(100, vm.register(1).unwrap());

    // Should skip these
    assert_eq!(0, vm.register(2).unwrap());
    assert_eq!(0, vm.register(3).unwrap());
    assert_eq!(0, vm.register(4).unwrap());

    // And hit this one at the end
    assert_eq!(100, vm.register(5).unwrap());

    // And check on the counter itself
    assert_eq!(28, vm.program_counter());
}

#[test]
fn test_jump_forward() {
    let program = Program::from(vec![
        // A bunch of random load instructions
        Load::OPCODE, 0, 0, 100,
        Load::OPCODE, 1, 0, 100,
        JumpForward::OPCODE, 0, 0, 3,
        Load::OPCODE, 2, 0, 100,
        Load::OPCODE, 3, 0, 100,
        Load::OPCODE, 4, 0, 100,
        Load::OPCODE, 5, 0, 100,
    ]);

    let mut vm = Kaylee::new();
    vm.run(program).unwrap();

    // Should set these
    assert_eq!(100, vm.register(0).unwrap());
    assert_eq!(100, vm.register(1).unwrap());

    // Should skip these
    assert_eq!(0, vm.register(2).unwrap());
    assert_eq!(0, vm.register(3).unwrap());
    assert_eq!(0, vm.register(4).unwrap());

    // And hit this one at the end
    assert_eq!(100, vm.register(5).unwrap());

    // And check on the counter itself
    assert_eq!(28, vm.program_counter());
}

#[test]
fn test_jump_backward() {
    let program = Program::from(vec![
        Load::OPCODE, 0, 0, 100, // Jump to here, execute
        Halt::OPCODE, 0, 0, 0, // Stop
        Load::OPCODE, 1, 0, 100,
        Load::OPCODE, 2, 0, 100, // Start here (12)
        Load::OPCODE, 3, 0, 100, // Execute
        JumpBackward::OPCODE, 0, 0, 5, // Jump
        Load::OPCODE, 4, 0, 100,
        Load::OPCODE, 5, 0, 100,
    ]);

    let mut vm = Kaylee::new();
    vm.set_program_counter(12);
    vm.run(program).unwrap();

    assert_eq!(100, vm.register(0).unwrap());
    assert_eq!(0, vm.register(1).unwrap());
    assert_eq!(100, vm.register(2).unwrap());
    assert_eq!(100, vm.register(3).unwrap());
    assert_eq!(0, vm.register(4).unwrap());
    assert_eq!(0, vm.register(5).unwrap());

    // And check on the counter itself
    assert_eq!(8, vm.program_counter());
}

#[test]
fn test_jump_if_equal() {
    let program = Program::from(vec![
        // A bunch of random load instructions
        Load::OPCODE, 0, 0, 100,
        Load::OPCODE, 1, 0, 100,
        JumpEqual::OPCODE, 30, 29, 28,
        Load::OPCODE, 2, 0, 100,
        Load::OPCODE, 3, 0, 100,
        Load::OPCODE, 4, 0, 100,
        Load::OPCODE, 5, 0, 100,
    ]);

    let mut vm = Kaylee::new();
    vm.set_register(30, 24).unwrap();
    vm.set_register(29, 200).unwrap();
    vm.set_register(28, 200).unwrap();

    vm.run(program).unwrap();

    // Should set these
    assert_eq!(100, vm.register(0).unwrap());
    assert_eq!(100, vm.register(1).unwrap());

    // Should skip these
    assert_eq!(0, vm.register(2).unwrap());
    assert_eq!(0, vm.register(3).unwrap());
    assert_eq!(0, vm.register(4).unwrap());

    // And hit this one at the end
    assert_eq!(100, vm.register(5).unwrap());

    // And check on the counter itself
    assert_eq!(28, vm.program_counter());
}

#[test]
fn test_dont_jump_if_not_equal() {
    let program = Program::from(vec![
        // A bunch of random load instructions
        Load::OPCODE, 0, 0, 100,
        Load::OPCODE, 1, 0, 100,
        JumpEqual::OPCODE, 30, 29, 28,
        Load::OPCODE, 2, 0, 100,
        Load::OPCODE, 3, 0, 100,
        Load::OPCODE, 4, 0, 100,
        Load::OPCODE, 5, 0, 100,
    ]);

    let mut vm = Kaylee::new();
    vm.set_register(30, 24).unwrap();
    vm.set_register(29, 300).unwrap();
    vm.set_register(28, 200).unwrap();

    vm.run(program).unwrap();

    // Should set these
    assert_eq!(100, vm.register(0).unwrap());
    assert_eq!(100, vm.register(1).unwrap());
    assert_eq!(100, vm.register(2).unwrap());
    assert_eq!(100, vm.register(3).unwrap());
    assert_eq!(100, vm.register(4).unwrap());
    assert_eq!(100, vm.register(5).unwrap());

    // And check on the counter itself
    assert_eq!(28, vm.program_counter());
}

#[test]
fn test_jump_backward_before_program_start_is_an_error() {
    // a backward jump of one slot at the very start would land the
    // program counter below zero
    let program = Program::from(vec![
        JumpBackward::OPCODE, 0, 0, 1,
    ]);

    let mut vm = Kaylee::new();
    assert_eq!(
        Err(ExecutionError::ProgramCounterOutOfRange),
        vm.run(program)
    );
}
