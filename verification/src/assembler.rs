//! Assembler: a pure, stateless builder that turns a sequence of symbolic
//! instructions into the exact byte stream the machine decodes.
//!
//! The only thing that can go wrong is an operand that does not fit its
//! field: a register index above 15 or an immediate above 255 fails the
//! whole assembly with [`Error::OperandOutOfRange`], before any bytes are
//! produced.
//!
//! Encoding is the inverse of the codec's decoding: see
//! [`lemma_round_trip`].

use vstd::prelude::*;

use crate::codec::{hi_nibble, lo_nibble, Inst};
use crate::machine::{init_state, op_from_code_spec, run_from, Error, Op, VmState};

verus! {

/// One symbolic instruction. Operand order for the arithmetic operations
/// is (first source, second source, destination).
#[derive(Debug, PartialEq, Eq, Structural, Clone, Copy)]
pub enum AsmInst {
    Done,
    LoadI { dest: u8, imm: u64 },
    Add { src0: u8, src1: u8, dest: u8 },
    Sub { src0: u8, src1: u8, dest: u8 },
    Div { src0: u8, src1: u8, dest: u8 },
    Mul { src0: u8, src1: u8, dest: u8 },
    MovRes { src: u8 },
}

/// Every operand of the instruction fits its field: register indices in
/// 0..16, immediates in 0..256.
pub open spec fn inst_valid(i: AsmInst) -> bool {
    match i {
        AsmInst::Done => true,
        AsmInst::LoadI { dest, imm } => dest < 16 && imm < 256,
        AsmInst::Add { src0, src1, dest } => src0 < 16 && src1 < 16 && dest < 16,
        AsmInst::Sub { src0, src1, dest } => src0 < 16 && src1 < 16 && dest < 16,
        AsmInst::Div { src0, src1, dest } => src0 < 16 && src1 < 16 && dest < 16,
        AsmInst::Mul { src0, src1, dest } => src0 < 16 && src1 < 16 && dest < 16,
        AsmInst::MovRes { src } => src < 16,
    }
}

/// Every instruction of the program is valid.
pub open spec fn prog_valid(p: Seq<AsmInst>) -> bool {
    forall|i: int| 0 <= i < p.len() ==> inst_valid(p[i])
}

/// The two-byte wire form of a valid instruction: the operation code and
/// `reg0` packed into the first byte, the remaining operands — or zero
/// padding — into the second.
pub open spec fn encode_spec(i: AsmInst) -> Seq<u8> {
    match i {
        AsmInst::Done => seq![0u8, 0u8],
        AsmInst::LoadI { dest, imm } => seq![(0x10 + dest) as u8, imm as u8],
        AsmInst::Add { src0, src1, dest } => seq![(0x20 + src0) as u8, (src1 * 16 + dest) as u8],
        AsmInst::Sub { src0, src1, dest } => seq![(0x30 + src0) as u8, (src1 * 16 + dest) as u8],
        AsmInst::Div { src0, src1, dest } => seq![(0x40 + src0) as u8, (src1 * 16 + dest) as u8],
        AsmInst::Mul { src0, src1, dest } => seq![(0x50 + src0) as u8, (src1 * 16 + dest) as u8],
        AsmInst::MovRes { src } => seq![(0x60 + src) as u8, 0u8],
    }
}

/// The byte stream of a whole program: the wire forms of its instructions,
/// in order, packed contiguously.
pub open spec fn assemble_spec(p: Seq<AsmInst>) -> Seq<u8>
    decreases p.len(),
{
    if p.len() == 0 {
        Seq::empty()
    } else {
        encode_spec(p[0]) + assemble_spec(p.drop_first())
    }
}

/// Encodes one symbolic instruction into its two-byte wire form, or
/// rejects it when an operand does not fit its field.
pub fn encode_inst(i: &AsmInst) -> (r: Result<Inst, Error>)
    ensures
        r is Ok <==> inst_valid(*i),
        inst_valid(*i) ==> (r matches Ok(n) && n.c@ == encode_spec(*i)),
        !inst_valid(*i) ==> r == Err::<Inst, Error>(Error::OperandOutOfRange),
{
    match *i {
        AsmInst::Done => Ok(Inst::from_slice([0x00, 0x00])),
        AsmInst::LoadI { dest, imm } => {
            if dest > 15 || imm > 255 {
                Err(Error::OperandOutOfRange)
            } else {
                Ok(Inst::from_slice([0x10 + dest, imm as u8]))
            }
        }
        AsmInst::Add { src0, src1, dest } => {
            if src0 > 15 || src1 > 15 || dest > 15 {
                Err(Error::OperandOutOfRange)
            } else {
                Ok(Inst::from_slice([0x20 + src0, src1 * 16 + dest]))
            }
        }
        AsmInst::Sub { src0, src1, dest } => {
            if src0 > 15 || src1 > 15 || dest > 15 {
                Err(Error::OperandOutOfRange)
            } else {
                Ok(Inst::from_slice([0x30 + src0, src1 * 16 + dest]))
            }
        }
        AsmInst::Div { src0, src1, dest } => {
            if src0 > 15 || src1 > 15 || dest > 15 {
                Err(Error::OperandOutOfRange)
            } else {
                Ok(Inst::from_slice([0x40 + src0, src1 * 16 + dest]))
            }
        }
        AsmInst::Mul { src0, src1, dest } => {
            if src0 > 15 || src1 > 15 || dest > 15 {
                Err(Error::OperandOutOfRange)
            } else {
                Ok(Inst::from_slice([0x50 + src0, src1 * 16 + dest]))
            }
        }
        AsmInst::MovRes { src } => {
            if src > 15 {
                Err(Error::OperandOutOfRange)
            } else {
                Ok(Inst::from_slice([0x60 + src, 0x00]))
            }
        }
    }
}

/// Assembles a whole program into the byte stream the machine consumes:
/// the wire forms of the instructions in order. Succeeds exactly when
/// every operand fits its field; otherwise nothing is produced and the
/// outcome is [`Error::OperandOutOfRange`].
pub fn assemble(prog: &[AsmInst]) -> (r: Result<Vec<u8>, Error>)
    ensures
        r is Ok <==> prog_valid(prog@),
        prog_valid(prog@) ==> (r matches Ok(bytes) && bytes@ == assemble_spec(prog@)),
        !prog_valid(prog@) ==> r == Err::<Vec<u8>, Error>(Error::OperandOutOfRange),
{
    let mut out: Vec<u8> = Vec::new();
    let mut i: usize = 0;

    proof {
        assert(prog@.skip(0) =~= prog@);
    }

    while i < prog.len()
        invariant
            i <= prog@.len(),
            forall|j: int| 0 <= j < i ==> inst_valid(prog@[j]),
            assemble_spec(prog@) == out@ + assemble_spec(prog@.skip(i as int)),
        decreases prog@.len() - i,
    {
        let inst = match encode_inst(&prog[i]) {
            Ok(inst) => inst,
            Err(e) => {
                return Err(e);
            }
        };
        let ghost old_out = out@;
        out.push(inst.c[0]);
        out.push(inst.c[1]);
        proof {
            let rest = prog@.skip(i as int);
            assert(rest[0] == prog@[i as int]);
            assert(rest.drop_first() =~= prog@.skip(i as int + 1));
            assert(assemble_spec(rest) == encode_spec(prog@[i as int]) + assemble_spec(
                prog@.skip(i as int + 1),
            ));
            assert(out@ =~= old_out + encode_spec(prog@[i as int]));
            assert(old_out + (encode_spec(prog@[i as int]) + assemble_spec(
                prog@.skip(i as int + 1),
            )) =~= out@ + assemble_spec(prog@.skip(i as int + 1)));
        }
        i = i + 1;
    }

    proof {
        assert(prog@.skip(prog@.len() as int) =~= Seq::<AsmInst>::empty());
        assert(out@ + assemble_spec(prog@.skip(prog@.len() as int)) =~= out@);
    }
    Ok(out)
}

/// The symbolic instruction a two-byte pair decodes to, read off the
/// fields of the wire layout of [`crate::codec`]; nothing when the
/// operation-code nibble is reserved.
pub open spec fn decode_spec(b0: u8, b1: u8) -> Option<AsmInst> {
    match op_from_code_spec(hi_nibble(b0)) {
        Some(Op::Done) => Some(AsmInst::Done),
        Some(Op::LoadI) => Some(AsmInst::LoadI { dest: lo_nibble(b0), imm: b1 as u64 }),
        Some(Op::Add) => Some(
            AsmInst::Add { src0: lo_nibble(b0), src1: hi_nibble(b1), dest: lo_nibble(b1) },
        ),
        Some(Op::Sub) => Some(
            AsmInst::Sub { src0: lo_nibble(b0), src1: hi_nibble(b1), dest: lo_nibble(b1) },
        ),
        Some(Op::Div) => Some(
            AsmInst::Div { src0: lo_nibble(b0), src1: hi_nibble(b1), dest: lo_nibble(b1) },
        ),
        Some(Op::Mul) => Some(
            AsmInst::Mul { src0: lo_nibble(b0), src1: hi_nibble(b1), dest: lo_nibble(b1) },
        ),
        Some(Op::MovRes) => Some(AsmInst::MovRes { src: lo_nibble(b0) }),
        None => None,
    }
}

/// Round trip: decoding any instruction the assembler accepts recovers
/// exactly the original operation and operand values.
pub proof fn lemma_round_trip(i: AsmInst)
    requires
        inst_valid(i),
    ensures
        decode_spec(encode_spec(i)[0], encode_spec(i)[1]) == Some(i),
{
    let b0 = encode_spec(i)[0];
    let b1 = encode_spec(i)[1];
    assert(16 * (b0 / 16) + b0 % 16 == b0) by (bit_vector);
    assert(16 * (b1 / 16) + b1 % 16 == b1) by (bit_vector);
    match i {
        AsmInst::Done => {}
        AsmInst::LoadI { dest, imm } => {
            assert(b0 == 16 + dest);
        }
        AsmInst::Add { src0, src1, dest } => {
            assert(b0 == 32 + src0 && b1 == src1 * 16 + dest);
        }
        AsmInst::Sub { src0, src1, dest } => {
            assert(b0 == 48 + src0 && b1 == src1 * 16 + dest);
        }
        AsmInst::Div { src0, src1, dest } => {
            assert(b0 == 64 + src0 && b1 == src1 * 16 + dest);
        }
        AsmInst::Mul { src0, src1, dest } => {
            assert(b0 == 80 + src0 && b1 == src1 * 16 + dest);
        }
        AsmInst::MovRes { src } => {
            assert(b0 == 96 + src);
        }
    }
}

/// The other direction of the round trip: a two-byte pair with a
/// recognized operation code decodes to a valid instruction, and encoding
/// that instruction yields the pair back, byte for byte — provided the
/// unused fields of `Done` and `MovRes` hold the canonical zero padding.
pub proof fn lemma_encode_decode_identity(b0: u8, b1: u8)
    requires
        op_from_code_spec(hi_nibble(b0)) is Some,
        op_from_code_spec(hi_nibble(b0)) == Some(Op::Done) ==> lo_nibble(b0) == 0 && b1 == 0,
        op_from_code_spec(hi_nibble(b0)) == Some(Op::MovRes) ==> b1 == 0,
    ensures
        decode_spec(b0, b1) matches Some(i) && inst_valid(i) && encode_spec(i) == seq![b0, b1],
{
    assert(b0 / 16 < 16 && b0 % 16 < 16 && b1 / 16 < 16 && b1 % 16 < 16 && 16 * (b0 / 16) + b0
        % 16 == b0 && 16 * (b1 / 16) + b1 % 16 == b1) by (bit_vector);
    let i = decode_spec(b0, b1)->0;
    let v = hi_nibble(b0);
    if v == 0 {
        assert(b0 == 0);
        assert(encode_spec(i) =~= seq![b0, b1]);
    } else if v == 1 {
        assert(i == AsmInst::LoadI { dest: lo_nibble(b0), imm: b1 as u64 });
        assert(encode_spec(i) =~= seq![b0, b1]);
    } else if v == 6 {
        assert(i == AsmInst::MovRes { src: lo_nibble(b0) });
        assert(encode_spec(i) =~= seq![b0, b1]);
    } else {
        assert(encode_spec(i) =~= seq![b0, b1]);
    }
}

/// Loading two values into two distinct registers, adding them into a
/// third and moving that register to the result yields the sum of the two
/// values: for all register indices and immediates, assembling
/// `LOADI r0,a; LOADI r1,b; ADD r0,r1,r2; MOVRES r2; DONE` and running the
/// bytes from the initial state halts with success and leaves the sum in
/// the result. The two load targets must differ, else the second load
/// overwrites the first value.
pub proof fn lemma_load_add_move(r0: u8, r1: u8, r2: u8, a: u8, b: u8)
    requires
        r0 < 16,
        r1 < 16,
        r2 < 16,
        r0 != r1,
    ensures
        ({
            let p = seq![
                AsmInst::LoadI { dest: r0, imm: a as u64 },
                AsmInst::LoadI { dest: r1, imm: b as u64 },
                AsmInst::Add { src0: r0, src1: r1, dest: r2 },
                AsmInst::MovRes { src: r2 },
                AsmInst::Done,
            ];
            prog_valid(p) && run_from(assemble_spec(p), init_state()).1 == Ok::<(), Error>(())
                && run_from(assemble_spec(p), init_state()).0.result == a as u64 + b as u64
        }),
{
    let p = seq![
        AsmInst::LoadI { dest: r0, imm: a as u64 },
        AsmInst::LoadI { dest: r1, imm: b as u64 },
        AsmInst::Add { src0: r0, src1: r1, dest: r2 },
        AsmInst::MovRes { src: r2 },
        AsmInst::Done,
    ];
    assert(prog_valid(p));

    let p1 = p.drop_first();
    let p2 = p1.drop_first();
    let p3 = p2.drop_first();
    let p4 = p3.drop_first();
    assert(p4.drop_first().len() == 0);
    assert(assemble_spec(p4.drop_first()) == Seq::<u8>::empty());
    let code = assemble_spec(p);
    assert(p1[0] == p[1] && p2[0] == p[2] && p3[0] == p[3] && p4[0] == p[4]);
    assert(code == encode_spec(p[0]) + assemble_spec(p1));
    assert(assemble_spec(p1) == encode_spec(p[1]) + assemble_spec(p2));
    assert(assemble_spec(p2) == encode_spec(p[2]) + assemble_spec(p3));
    assert(assemble_spec(p3) == encode_spec(p[3]) + assemble_spec(p4));
    assert(assemble_spec(p4) == encode_spec(p[4]) + assemble_spec(p4.drop_first()));
    let bytes = seq![
        (0x10 + r0) as u8,
        a,
        (0x10 + r1) as u8,
        b,
        (0x20 + r0) as u8,
        (r1 * 16 + r2) as u8,
        (0x60 + r2) as u8,
        0u8,
        0u8,
        0u8,
    ];
    assert(code =~= bytes);

    assert((16 + r0) / 16 == 1 && (16 + r0) % 16 == r0 && (16 + r1) / 16 == 1 && (16 + r1) % 16
        == r1 && (32 + r0) / 16 == 2 && (32 + r0) % 16 == r0 && (96 + r2) / 16 == 6 && (96 + r2)
        % 16 == r2) by (bit_vector)
        requires
            r0 < 16,
            r1 < 16,
            r2 < 16,
    ;
    assert((r1 * 16 + r2) / 16 == r1 && (r1 * 16 + r2) % 16 == r2) by (bit_vector)
        requires
            r1 < 16,
            r2 < 16,
    ;

    let s0 = init_state();
    let s1 = VmState { ip: 2, regs: s0.regs.update(r0 as int, a as u64), result: 0 };
    let s2 = VmState { ip: 4, regs: s1.regs.update(r1 as int, b as u64), result: 0 };
    let sum = (a as u64 + b as u64) as u64;
    let s3 = VmState { ip: 6, regs: s2.regs.update(r2 as int, sum), result: 0 };
    let s4 = VmState { ip: 8, regs: s3.regs, result: sum };

    assert(run_from(code, s0) == run_from(code, s1));
    assert(run_from(code, s1) == run_from(code, s2));
    assert(s2.regs[r0 as int] == a as u64 && s2.regs[r1 as int] == b as u64);
    assert(vstd::wrapping::u64_specs::wrapping_add(a as u64, b as u64) == sum);
    assert(run_from(code, s2) == run_from(code, s3));
    assert(s3.regs[r2 as int] == sum);
    assert(run_from(code, s3) == run_from(code, s4));
    assert(run_from(code, s4) == (
        VmState { ip: 10, regs: s4.regs, result: sum },
        Ok::<(), Error>(()),
    ));
}

} // verus!
