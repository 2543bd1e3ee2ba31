use kaylee::instructions::math::{Add, Divide, Multiply, Subtract};
use kaylee::program::Program;
use kaylee::vm::{ExecutionError, Kaylee};

#[test]
fn test_add() {
    let program = Program::from(vec![
        Add::OPCODE, 29, 0, 2,
        Add::OPCODE, 30, 1, 3,
        Add::OPCODE, 31, 29, 30,
    ]);

    let mut vm = Kaylee::new();
    vm.set_register(0, 12).unwrap();
    vm.set_register(1, 10).unwrap();
    vm.set_register(2, 500).unwrap();
    vm.set_register(3, 7).unwrap();

    // $29[512] = 12 + 500
    // $30[17] = 10 + 7
    // $31[529] = 512 + 17

    vm.run(program).unwrap();

    assert_eq!(512, vm.register(29).unwrap());
    assert_eq!(17, vm.register(30).unwrap());
    assert_eq!(529, vm.register(31).unwrap());
}

#[test]
fn test_subtract() {
    let program = Program::from(vec![
        Subtract::OPCODE, 29, 0, 2,
        Subtract::OPCODE, 30, 1, 3,
        Subtract::OPCODE, 31, 29, 30,
    ]);

    let mut vm = Kaylee::new();
    vm.set_register(0, 222).unwrap();
    vm.set_register(1, 14).unwrap();
    vm.set_register(2, 22).unwrap();
    vm.set_register(3, 3).unwrap();

    // $29[200] = 222 - 22
    // $30[11] = 14 - 3
    // $31[189] = 200 - 11

    vm.run(program).unwrap();

    assert_eq!(200, vm.register(29).unwrap());
    assert_eq!(11, vm.register(30).unwrap());
    assert_eq!(189, vm.register(31).unwrap());
}

#[test]
fn test_multiply() {
    let program = Program::from(vec![
        Multiply::OPCODE, 29, 0, 2,
        Multiply::OPCODE, 30, 1, 3,
        Multiply::OPCODE, 31, 29, 30,
    ]);

    let mut vm = Kaylee::new();
    vm.set_register(0, 2).unwrap();
    vm.set_register(1, 4).unwrap();
    vm.set_register(2, 6).unwrap();
    vm.set_register(3, 8).unwrap();

    // $29[12] = 2 * 6
    // $30[32] = 4 * 8
    // $31[384] = 12 * 32

    vm.run(program).unwrap();

    assert_eq!(12, vm.register(29).unwrap());
    assert_eq!(32, vm.register(30).unwrap());
    assert_eq!(384, vm.register(31).unwrap());
}

#[test]
fn test_divide_no_remainder() {
    let program = Program::from(vec![
        Divide::OPCODE, 31, 0, 1,
    ]);

    let mut vm = Kaylee::new();
    vm.set_register(0, 16).unwrap();
    vm.set_register(1, 2).unwrap();

    vm.run(program).unwrap();

    assert_eq!(8, vm.register(31).unwrap());
    assert_eq!(0, vm.remainder());
}

#[test]
fn test_divide_with_remainder() {
    let program = Program::from(vec![
        Divide::OPCODE, 31, 0, 1,
    ]);

    let mut vm = Kaylee::new();
    vm.set_register(0, 13).unwrap();
    vm.set_register(1, 5).unwrap();

    vm.run(program).unwrap();

    assert_eq!(2, vm.register(31).unwrap());
    assert_eq!(3, vm.remainder());
}

#[test]
fn test_math() {
    let program = Program::from(vec![
        Add::OPCODE, 29, 0, 2,
        Add::OPCODE, 30, 29, 2,
        Subtract::OPCODE, 30, 29, 1,
        Add::OPCODE, 28, 3, 4,
        Multiply::OPCODE, 31, 3, 2,
        Divide::OPCODE, 3, 29, 30,
        Subtract::OPCODE, 4, 2, 30,
        Add::OPCODE, 0, 3, 28,
        Multiply::OPCODE, 1, 3, 4,
        Divide::OPCODE, 31, 28, 30,
    ]);

    let mut vm = Kaylee::new();
    vm.set_register(0, 2).unwrap();
    vm.set_register(1, 4).unwrap();
    vm.set_register(2, 6).unwrap();
    vm.set_register(3, 8).unwrap();
    vm.set_register(4, 9).unwrap();

    // 29[8] = 2 + 6
    // 30[14] = 8 + 6
    // 30[4] = 8 - 4
    // 28[17] = 8 + 9
    // 31[48] = 8 * 6
    // 3[2] = 8 / 4
    // 4[2] = 6 - 4
    // 0[19] = 2 + 17
    // 1[4] = 2 * 2
    // 31[4r1] = 17 / 4

    vm.run(program).unwrap();

    assert_eq!(19, vm.register(0).unwrap());
    assert_eq!(4, vm.register(1).unwrap());
    assert_eq!(6, vm.register(2).unwrap());
    assert_eq!(2, vm.register(3).unwrap());
    assert_eq!(2, vm.register(4).unwrap());
    assert_eq!(17, vm.register(28).unwrap());
    assert_eq!(8, vm.register(29).unwrap());
    assert_eq!(4, vm.register(30).unwrap());
    assert_eq!(4, vm.register(31).unwrap());
    assert_eq!(1, vm.remainder());
}

#[test]
fn test_divide_by_zero_is_an_error() {
    let program = Program::from(vec![
        Divide::OPCODE, 31, 0, 1,
    ]);

    let mut vm = Kaylee::new();
    vm.set_register(0, 13).unwrap();
    vm.set_register(1, 0).unwrap();

    assert_eq!(Err(ExecutionError::DivisionByZero), vm.run(program));
    assert_eq!(0, vm.register(31).unwrap());
}

#[test]
fn test_add_overflow_is_an_error() {
    let program = Program::from(vec![
        Add::OPCODE, 2, 0, 1,
    ]);

    let mut vm = Kaylee::new();
    vm.set_register(0, i32::MAX).unwrap();
    vm.set_register(1, 1).unwrap();

    assert_eq!(Err(ExecutionError::Overflow), vm.run(program));
    assert_eq!(0, vm.register(2).unwrap());
}

#[test]
fn test_source_register_out_of_bounds_is_an_error() {
    let program = Program::from(vec![
        Add::OPCODE, 2, 40, 1,
    ]);

    let mut vm = Kaylee::new();
    assert_eq!(
        Err(ExecutionError::RegisterOutOfBounds { register: 40 }),
        vm.run(program)
    );
}

#[test]
fn test_negative_division_truncates() {
    let program = Program::from(vec![
        Divide::OPCODE, 31, 0, 1,
    ]);

    let mut vm = Kaylee::new();
    vm.set_register(0, -13).unwrap();
    vm.set_register(1, 5).unwrap();

    vm.run(program).unwrap();

    // truncating signed division; the remainder register is the
    // signed remainder reinterpreted as unsigned
    assert_eq!(-2, vm.register(31).unwrap());
    assert_eq!((-3i32) as u32, vm.remainder());
}
