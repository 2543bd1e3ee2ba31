use kaylee::instructions::compare::{
    Equal, GreaterThan, GreaterThanOrEqual, LessThan, LessThanOrEqual, NotEqual,
};
use kaylee::program::Program;
use kaylee::vm::Kaylee;

#[test]
fn test_equal() {
    let program = Program::from(vec![
        Equal::OPCODE, 30, 1, 2, // Pass
        Equal::OPCODE, 31, 3, 4, // Fail
    ]);

    let mut vm = Kaylee::new();
    vm.set_register(1, 100).unwrap();
    vm.set_register(2, 100).unwrap();
    vm.set_register(3, 200).unwrap();
    vm.set_register(4, 500).unwrap();

    vm.run(program).unwrap();

    assert_eq!(1, vm.register(30).unwrap());
    assert_eq!(0, vm.register(31).unwrap());
}

#[test]
fn test_not_equal() {
    let program = Program::from(vec![
        NotEqual::OPCODE, 30, 1, 2, // Pass
        NotEqual::OPCODE, 31, 3, 4, // Fail
    ]);

    let mut vm = Kaylee::new();
    vm.set_register(1, 100).unwrap();
    vm.set_register(2, 200).unwrap();
    vm.set_register(3, 300).unwrap();
    vm.set_register(4, 300).unwrap();

    vm.run(program).unwrap();

    assert_eq!(1, vm.register(30).unwrap());
    assert_eq!(0, vm.register(31).unwrap());
}

#[test]
fn test_greater_than() {
    let program = Program::from(vec![
        GreaterThan::OPCODE, 30, 1, 2, // Pass
        GreaterThan::OPCODE, 31, 3, 4, // Fail
    ]);

    let mut vm = Kaylee::new();
    vm.set_register(1, 300).unwrap();
    vm.set_register(2, 200).unwrap();
    vm.set_register(3, 200).unwrap();
    vm.set_register(4, 300).unwrap();

    vm.run(program).unwrap();

    assert_eq!(1, vm.register(30).unwrap());
    assert_eq!(0, vm.register(31).unwrap());
}

#[test]
fn test_less_than() {
    let program = Program::from(vec![
        LessThan::OPCODE, 30, 1, 2, // Pass
        LessThan::OPCODE, 31, 3, 4, // Fail
    ]);

    let mut vm = Kaylee::new();
    vm.set_register(1, 100).unwrap();
    vm.set_register(2, 200).unwrap();
    vm.set_register(3, 400).unwrap();
    vm.set_register(4, 300).unwrap();

    vm.run(program).unwrap();

    assert_eq!(1, vm.register(30).unwrap());
    assert_eq!(0, vm.register(31).unwrap());
}

#[test]
fn test_greater_than_or_equal() {
    let program = Program::from(vec![
        GreaterThanOrEqual::OPCODE, 28, 1, 2, // Pass
        GreaterThanOrEqual::OPCODE, 29, 3, 4, // Pass
        GreaterThanOrEqual::OPCODE, 30, 5, 6, // Fail
    ]);

    let mut vm = Kaylee::new();
    vm.set_register(1, 200).unwrap();
    vm.set_register(2, 100).unwrap();

    vm.set_register(3, 200).unwrap();
    vm.set_register(4, 200).unwrap();

    vm.set_register(5, 200).unwrap();
    vm.set_register(6, 300).unwrap();

    vm.run(program).unwrap();

    assert_eq!(1, vm.register(28).unwrap());
    assert_eq!(1, vm.register(29).unwrap());
    assert_eq!(0, vm.register(30).unwrap());
}

#[test]
fn test_less_than_or_equal() {
    let program = Program::from(vec![
        LessThanOrEqual::OPCODE, 28, 1, 2, // Pass
        LessThanOrEqual::OPCODE, 29, 3, 4, // Pass
        LessThanOrEqual::OPCODE, 30, 5, 6, // Fail
    ]);

    let mut vm = Kaylee::new();
    vm.set_register(1, 100).unwrap();
    vm.set_register(2, 200).unwrap();

    vm.set_register(3, 200).unwrap();
    vm.set_register(4, 200).unwrap();

    vm.set_register(5, 400).unwrap();
    vm.set_register(6, 300).unwrap();

    vm.run(program).unwrap();

    assert_eq!(1, vm.register(28).unwrap());
    assert_eq!(1, vm.register(29).unwrap());
    assert_eq!(0, vm.register(30).unwrap());
}

#[test]
fn test_comparison_results_are_flags() {
    // every comparison leaves exactly 0 or 1 in its destination,
    // whatever was there before
    let program = Program::from(vec![
        Equal::OPCODE, 10, 1, 2,
        NotEqual::OPCODE, 11, 1, 2,
        GreaterThan::OPCODE, 12, 1, 2,
        LessThan::OPCODE, 13, 1, 2,
        GreaterThanOrEqual::OPCODE, 14, 1, 2,
        LessThanOrEqual::OPCODE, 15, 1, 2,
    ]);

    let mut vm = Kaylee::new();
    vm.set_register(1, -7).unwrap();
    vm.set_register(2, 12345).unwrap();
    for destination in 10..16 {
        vm.set_register(destination, -999).unwrap();
    }

    vm.run(program).unwrap();

    for destination in 10..16 {
        let value = vm.register(destination).unwrap();
        assert!(value == 0 || value == 1);
    }
    assert_eq!(0, vm.register(10).unwrap());
    assert_eq!(1, vm.register(11).unwrap());
    assert_eq!(0, vm.register(12).unwrap());
    assert_eq!(1, vm.register(13).unwrap());
    assert_eq!(0, vm.register(14).unwrap());
    assert_eq!(1, vm.register(15).unwrap());
}
