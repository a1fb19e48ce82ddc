use regvm::assembler::{assemble, encode_inst};
use regvm::{AsmInst, Error, Inst, Op};

#[test]
fn opcodes_round_trip_through_their_wire_codes() {
    let ops = [Op::Done, Op::LoadI, Op::Add, Op::Sub, Op::Div, Op::Mul, Op::MovRes];
    for (want, op) in ops.into_iter().enumerate() {
        let code = op.code();
        assert_eq!(code as usize, want);
        assert_eq!(Op::from_code(code), Some(op));
    }
    for reserved in 7u8..=15 {
        assert_eq!(Op::from_code(reserved), None);
    }
}

#[test]
fn load_encodes_and_decodes_exactly() {
    let inst = encode_inst(&AsmInst::LoadI { dest: 5, imm: 200 }).unwrap();
    assert_eq!(inst.c, [0x15, 200]);
    assert_eq!(inst.op(), 1);
    assert_eq!(inst.reg0(), 5);
    assert_eq!(inst.imm(), 200);
}

#[test]
fn arithmetic_encodes_and_decodes_exactly() {
    let inst = encode_inst(&AsmInst::Add { src0: 3, src1: 4, dest: 5 }).unwrap();
    assert_eq!(inst.c, [0x23, 0x45]);
    assert_eq!(inst.op(), 2);
    assert_eq!(inst.reg0(), 3);
    assert_eq!(inst.reg1(), 4);
    assert_eq!(inst.reg2(), 5);

    let inst = encode_inst(&AsmInst::Sub { src0: 1, src1: 2, dest: 3 }).unwrap();
    assert_eq!(inst.c, [0x31, 0x23]);
    let inst = encode_inst(&AsmInst::Div { src0: 15, src1: 0, dest: 15 }).unwrap();
    assert_eq!(inst.c, [0x4F, 0x0F]);
    let inst = encode_inst(&AsmInst::Mul { src0: 0, src1: 15, dest: 0 }).unwrap();
    assert_eq!(inst.c, [0x50, 0xF0]);
}

#[test]
fn done_and_movres_pad_with_zero() {
    let inst = encode_inst(&AsmInst::Done).unwrap();
    assert_eq!(inst.c, [0x00, 0x00]);
    assert_eq!(inst.op(), 0);

    let inst = encode_inst(&AsmInst::MovRes { src: 9 }).unwrap();
    assert_eq!(inst.c, [0x69, 0x00]);
    assert_eq!(inst.op(), 6);
    assert_eq!(inst.reg0(), 9);
}

#[test]
fn decode_ignores_the_unused_field_of_done() {
    let inst = Inst::from_slice([0x0F, 0x37]);
    assert_eq!(inst.op(), 0);
}

#[test]
fn register_index_out_of_range_is_rejected() {
    assert_eq!(
        encode_inst(&AsmInst::LoadI { dest: 16, imm: 0 }),
        Err(Error::OperandOutOfRange)
    );
    assert_eq!(
        encode_inst(&AsmInst::Add { src0: 0, src1: 16, dest: 0 }),
        Err(Error::OperandOutOfRange)
    );
    assert_eq!(
        encode_inst(&AsmInst::MovRes { src: 255 }),
        Err(Error::OperandOutOfRange)
    );
}

#[test]
fn immediate_out_of_range_is_rejected() {
    assert_eq!(
        encode_inst(&AsmInst::LoadI { dest: 0, imm: 256 }),
        Err(Error::OperandOutOfRange)
    );
    assert_eq!(
        assemble(&[
            AsmInst::LoadI { dest: 0, imm: 255 },
            AsmInst::LoadI { dest: 1, imm: 1000 },
        ]),
        Err(Error::OperandOutOfRange)
    );
}

#[test]
fn assemble_packs_instructions_contiguously() {
    let bytes = assemble(&[
        AsmInst::LoadI { dest: 0, imm: 3 },
        AsmInst::Add { src0: 0, src1: 1, dest: 2 },
        AsmInst::MovRes { src: 2 },
        AsmInst::Done,
    ])
    .unwrap();
    assert_eq!(bytes, vec![0x10, 0x03, 0x20, 0x12, 0x62, 0x00, 0x00, 0x00]);
}

#[test]
fn assemble_of_nothing_is_no_bytes() {
    assert_eq!(assemble(&[]), Ok(vec![]));
}
