use kaylee::instructions::data::Load;
use kaylee::instructions::machine::Halt;
use kaylee::program::Program;
use kaylee::vm::Kaylee;

#[test]
fn test_load() {
    let program = Program::from(vec![
        Load::OPCODE, 4, 1, 244,  // LOAD $4 #500
        Load::OPCODE, 30, 0, 12,  // LOAD $6 #12
    ]);

    let mut vm = Kaylee::new();
    vm.run(program).unwrap();

    assert_eq!(500, vm.register(4).unwrap());
    assert_eq!(12, vm.register(30).unwrap());
}

#[test]
fn test_load_load_halt_program() {
    // LOAD $4 #500; LOAD $30 #12; HALT
    let program = Program::from(vec![
        Load::OPCODE, 4, 1, 244,
        Load::OPCODE, 30, 0, 12,
        Halt::OPCODE, 0, 0, 0,
    ]);

    let mut vm = Kaylee::new();
    vm.run(program).unwrap();

    assert_eq!(500, vm.register(4).unwrap());
    assert_eq!(12, vm.register(30).unwrap());
    assert!(vm.halted());
}
