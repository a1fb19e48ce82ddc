use regvm::{AsmInst, Error, Vm};

fn assemble_ok(prog: &[AsmInst]) -> Vec<u8> {
    regvm::assembler::assemble(prog).expect("every operand fits its field")
}

#[test]
fn vm4_t1() {
    let mut vm = Vm::default();

    let bytes = assemble_ok(&[
        AsmInst::LoadI { dest: 0, imm: 3 },
        AsmInst::LoadI { dest: 1, imm: 5 },
        AsmInst::Add { src0: 0, src1: 1, dest: 2 },
        AsmInst::LoadI { dest: 3, imm: 6 },
        AsmInst::Mul { src0: 2, src1: 3, dest: 4 },
        AsmInst::Div { src0: 4, src1: 1, dest: 5 },
        AsmInst::Sub { src0: 5, src1: 0, dest: 6 },
        AsmInst::MovRes { src: 6 },
        AsmInst::Done,
    ]);
    assert_eq!(vm.interp(&bytes[..]), Ok(()));

    assert_eq!(vm.result(), ((3 + 5) * 6) / 5 - 3);
}

#[test]
fn load_add_move_concrete() {
    let mut vm = Vm::default();
    let bytes = assemble_ok(&[
        AsmInst::LoadI { dest: 7, imm: 200 },
        AsmInst::LoadI { dest: 3, imm: 100 },
        AsmInst::Add { src0: 7, src1: 3, dest: 15 },
        AsmInst::MovRes { src: 15 },
        AsmInst::Done,
    ]);
    assert_eq!(vm.interp(&bytes), Ok(()));
    assert_eq!(vm.result(), 300);
}

#[test]
fn division_by_zero_reports_position() {
    let mut vm = Vm::default();
    // Register 1 is never written, so it holds zero when the division runs.
    let bytes = assemble_ok(&[
        AsmInst::LoadI { dest: 0, imm: 8 },
        AsmInst::LoadI { dest: 2, imm: 9 },
        AsmInst::Div { src0: 0, src1: 1, dest: 2 },
        AsmInst::Done,
    ]);
    assert_eq!(vm.interp(&bytes), Err(Error::DivisionByZero(6)));
}

#[test]
fn division_truncates() {
    let mut vm = Vm::default();
    let bytes = assemble_ok(&[
        AsmInst::LoadI { dest: 0, imm: 7 },
        AsmInst::LoadI { dest: 1, imm: 2 },
        AsmInst::Div { src0: 0, src1: 1, dest: 2 },
        AsmInst::MovRes { src: 2 },
        AsmInst::Done,
    ]);
    assert_eq!(vm.interp(&bytes), Ok(()));
    assert_eq!(vm.result(), 3);
}

#[test]
fn unknown_opcode_at_start() {
    let mut vm = Vm::default();
    assert_eq!(
        vm.interp(&[0x70, 0x00]),
        Err(Error::UnknownOpcode(7, 2))
    );
}

#[test]
fn unknown_opcode_later_in_stream() {
    let mut vm = Vm::default();
    // A valid load first, then a reserved code nibble of 15.
    assert_eq!(
        vm.interp(&[0x10, 0x05, 0xF0, 0x00]),
        Err(Error::UnknownOpcode(15, 4))
    );
}

#[test]
fn empty_program_ends_unexpectedly() {
    let mut vm = Vm::default();
    assert_eq!(vm.interp(&[]), Err(Error::UnexpectedEndOfProgram(0)));
}

#[test]
fn one_byte_program_ends_unexpectedly() {
    let mut vm = Vm::default();
    assert_eq!(vm.interp(&[0x10]), Err(Error::UnexpectedEndOfProgram(0)));
}

#[test]
fn odd_length_program_ends_unexpectedly() {
    let mut vm = Vm::default();
    // One whole load instruction, then a single dangling byte.
    assert_eq!(
        vm.interp(&[0x12, 0x07, 0x23]),
        Err(Error::UnexpectedEndOfProgram(2))
    );
}

#[test]
fn program_without_done_ends_unexpectedly() {
    let mut vm = Vm::default();
    let bytes = assemble_ok(&[
        AsmInst::LoadI { dest: 0, imm: 1 },
        AsmInst::MovRes { src: 0 },
    ]);
    assert_eq!(vm.interp(&bytes), Err(Error::UnexpectedEndOfProgram(4)));
}

#[test]
fn multiplication_wraps_modulo_two_to_the_64() {
    let mut vm = Vm::default();
    // 16 squared four times is 2^64, which wraps to zero.
    let bytes = assemble_ok(&[
        AsmInst::LoadI { dest: 0, imm: 16 },
        AsmInst::Mul { src0: 0, src1: 0, dest: 0 },
        AsmInst::Mul { src0: 0, src1: 0, dest: 0 },
        AsmInst::Mul { src0: 0, src1: 0, dest: 0 },
        AsmInst::Mul { src0: 0, src1: 0, dest: 0 },
        AsmInst::MovRes { src: 0 },
        AsmInst::Done,
    ]);
    assert_eq!(vm.interp(&bytes), Ok(()));
    assert_eq!(vm.result(), 0);
}

#[test]
fn subtraction_wraps_below_zero() {
    let mut vm = Vm::default();
    let bytes = assemble_ok(&[
        AsmInst::LoadI { dest: 1, imm: 1 },
        AsmInst::Sub { src0: 0, src1: 1, dest: 2 },
        AsmInst::MovRes { src: 2 },
        AsmInst::Done,
    ]);
    assert_eq!(vm.interp(&bytes), Ok(()));
    assert_eq!(vm.result(), u64::MAX);
}

#[test]
fn result_defaults_to_zero_without_movres() {
    let mut vm = Vm::default();
    let bytes = assemble_ok(&[
        AsmInst::LoadI { dest: 0, imm: 42 },
        AsmInst::Done,
    ]);
    assert_eq!(vm.interp(&bytes), Ok(()));
    assert_eq!(vm.result(), 0);
}

#[test]
fn runs_are_independent_of_prior_state() {
    let first = assemble_ok(&[
        AsmInst::LoadI { dest: 4, imm: 77 },
        AsmInst::MovRes { src: 4 },
        AsmInst::Done,
    ]);
    // The second program reads registers the first one dirtied; a fresh
    // machine and a reused one must agree on its outcome.
    let second = assemble_ok(&[
        AsmInst::Add { src0: 4, src1: 4, dest: 0 },
        AsmInst::MovRes { src: 0 },
        AsmInst::Done,
    ]);

    let mut reused = Vm::default();
    assert_eq!(reused.interp(&first), Ok(()));
    assert_eq!(reused.result(), 77);
    assert_eq!(reused.interp(&second), Ok(()));

    let mut fresh = Vm::default();
    assert_eq!(fresh.interp(&second), Ok(()));

    assert_eq!(reused.result(), fresh.result());
    assert_eq!(fresh.result(), 0);
}

#[test]
fn reset_zeroes_the_observable_state() {
    let mut vm = Vm::default();
    let bytes = assemble_ok(&[
        AsmInst::LoadI { dest: 0, imm: 5 },
        AsmInst::MovRes { src: 0 },
        AsmInst::Done,
    ]);
    assert_eq!(vm.interp(&bytes), Ok(()));
    assert_eq!(vm.result(), 5);
    vm.reset();
    assert_eq!(vm.result(), 0);
}

#[test]
fn next_i_walks_the_stream_byte_by_byte() {
    let mut vm = Vm::default();
    assert_eq!(vm.next_i(&[7, 9]), Some(7));
    assert_eq!(vm.next_i(&[7, 9]), Some(9));
    assert_eq!(vm.next_i(&[7, 9]), None);
}
