//! The interpreter core: a register file of sixteen 64-bit registers, a
//! program counter, and a result cell, driven by a fetch-decode-execute
//! loop over the two-byte instruction stream of [`crate::codec`].
//!
//! The whole behaviour of [`Vm::interp`] is captured by the specification
//! function [`run_from`]: running a program equals evaluating `run_from`
//! on the byte stream from the freshly reset state.
//!
//! Arithmetic wraps modulo 2^64; division truncates. A truncated fetch, an
//! unrecognized operation code and a zero divisor each abort the run with a
//! typed [`Error`] carrying the program offset at the time of failure.

use vstd::prelude::*;

use crate::codec::{hi_nibble, lo_nibble, Inst};

verus! {

/// Number of registers in the register file.
pub const REGISTER_NUM: usize = 16;

/// The operations of the instruction set. Their wire codes (0 through 6,
/// in declaration order) are given by [`op_code_spec`] and [`Op::code`].
#[derive(Debug, PartialEq, Eq, Structural, Clone, Copy)]
pub enum Op {
    Done,
    LoadI,
    Add,
    Sub,
    Div,
    Mul,
    MovRes,
}

/// Everything that can go wrong while running or assembling a program.
/// Each run-time variant carries the program counter at the time of
/// failure; `UnknownOpcode` also carries the offending code nibble.
#[derive(Debug, PartialEq, Eq, Structural, Clone, Copy)]
pub enum Error {
    /// The operation-code nibble was in the reserved range 7 through 15.
    UnknownOpcode(u8, usize),
    /// A division instruction found zero in its divisor register.
    DivisionByZero(usize),
    /// Fewer than two bytes remained when an instruction fetch was due.
    UnexpectedEndOfProgram(usize),
    /// Assembly-time only: a register index above 15 or an immediate
    /// above 255 does not fit its field.
    OperandOutOfRange,
}

/// The wire code of an operation.
pub open spec fn op_code_spec(op: Op) -> u8 {
    match op {
        Op::Done => 0,
        Op::LoadI => 1,
        Op::Add => 2,
        Op::Sub => 3,
        Op::Div => 4,
        Op::Mul => 5,
        Op::MovRes => 6,
    }
}

/// The operation a code nibble stands for, if it is recognized.
pub open spec fn op_from_code_spec(v: u8) -> Option<Op> {
    if v == 0 {
        Some(Op::Done)
    } else if v == 1 {
        Some(Op::LoadI)
    } else if v == 2 {
        Some(Op::Add)
    } else if v == 3 {
        Some(Op::Sub)
    } else if v == 4 {
        Some(Op::Div)
    } else if v == 5 {
        Some(Op::Mul)
    } else if v == 6 {
        Some(Op::MovRes)
    } else {
        None
    }
}

impl Op {
    /// The wire code of this operation.
    pub fn code(&self) -> (r: u8)
        ensures
            r == op_code_spec(*self),
    {
        match self {
            Op::Done => 0,
            Op::LoadI => 1,
            Op::Add => 2,
            Op::Sub => 3,
            Op::Div => 4,
            Op::Mul => 5,
            Op::MovRes => 6,
        }
    }

    /// Decodes a code nibble; codes 7 through 15 are not recognized.
    pub fn from_code(v: u8) -> (r: Option<Op>)
        ensures
            r == op_from_code_spec(v),
    {
        if v == 0 {
            Some(Op::Done)
        } else if v == 1 {
            Some(Op::LoadI)
        } else if v == 2 {
            Some(Op::Add)
        } else if v == 3 {
            Some(Op::Sub)
        } else if v == 4 {
            Some(Op::Div)
        } else if v == 5 {
            Some(Op::Mul)
        } else if v == 6 {
            Some(Op::MovRes)
        } else {
            None
        }
    }
}

/// Decoding is the inverse of encoding on every operation.
pub proof fn lemma_op_code_round_trip(op: Op)
    ensures
        op_from_code_spec(op_code_spec(op)) == Some(op),
{
}

/// The mathematical state of the machine: program counter, register file
/// and result cell.
pub ghost struct VmState {
    pub ip: nat,
    pub regs: Seq<u64>,
    pub result: u64,
}

/// The state of a freshly constructed or reset machine: program counter
/// zero, every register zero, result zero.
pub open spec fn init_state() -> VmState {
    VmState { ip: 0, regs: Seq::new(REGISTER_NUM as nat, |i: int| 0u64), result: 0 }
}

/// Runs the program `code` to completion from state `s`: the meaning of the
/// fetch-decode-execute loop.
///
/// Each step fetches the two bytes at the program counter (failing with
/// `UnexpectedEndOfProgram` if fewer than two remain, the counter
/// unchanged), advances the counter by two, and dispatches on the
/// operation-code nibble. Add, subtract and multiply wrap modulo 2^64;
/// division truncates and fails with `DivisionByZero` on a zero divisor
/// without touching the destination register. `Done` halts with success; a
/// reserved code nibble fails with `UnknownOpcode`.
pub open spec fn run_from(code: Seq<u8>, s: VmState) -> (VmState, Result<(), Error>)
    decreases code.len() - s.ip,
{
    if s.ip + 2 > code.len() {
        (s, Err(Error::UnexpectedEndOfProgram(s.ip as usize)))
    } else {
        let b0 = code[s.ip as int];
        let b1 = code[s.ip as int + 1];
        let ip2 = (s.ip + 2) as nat;
        match op_from_code_spec(hi_nibble(b0)) {
            Some(Op::Done) => (VmState { ip: ip2, regs: s.regs, result: s.result }, Ok(())),
            Some(Op::LoadI) => run_from(
                code,
                VmState {
                    ip: ip2,
                    regs: s.regs.update(lo_nibble(b0) as int, b1 as u64),
                    result: s.result,
                },
            ),
            Some(Op::Add) => run_from(
                code,
                VmState {
                    ip: ip2,
                    regs: s.regs.update(
                        lo_nibble(b1) as int,
                        vstd::wrapping::u64_specs::wrapping_add(
                            s.regs[lo_nibble(b0) as int],
                            s.regs[hi_nibble(b1) as int],
                        ),
                    ),
                    result: s.result,
                },
            ),
            Some(Op::Sub) => run_from(
                code,
                VmState {
                    ip: ip2,
                    regs: s.regs.update(
                        lo_nibble(b1) as int,
                        vstd::wrapping::u64_specs::wrapping_sub(
                            s.regs[lo_nibble(b0) as int],
                            s.regs[hi_nibble(b1) as int],
                        ),
                    ),
                    result: s.result,
                },
            ),
            Some(Op::Div) => if s.regs[hi_nibble(b1) as int] == 0 {
                (
                    VmState { ip: ip2, regs: s.regs, result: s.result },
                    Err(Error::DivisionByZero(ip2 as usize)),
                )
            } else {
                run_from(
                    code,
                    VmState {
                        ip: ip2,
                        regs: s.regs.update(
                            lo_nibble(b1) as int,
                            (s.regs[lo_nibble(b0) as int] / s.regs[hi_nibble(b1) as int]) as u64,
                        ),
                        result: s.result,
                    },
                )
            },
            Some(Op::Mul) => run_from(
                code,
                VmState {
                    ip: ip2,
                    regs: s.regs.update(
                        lo_nibble(b1) as int,
                        vstd::wrapping::u64_specs::wrapping_mul(
                            s.regs[lo_nibble(b0) as int],
                            s.regs[hi_nibble(b1) as int],
                        ),
                    ),
                    result: s.result,
                },
            ),
            Some(Op::MovRes) => run_from(
                code,
                VmState { ip: ip2, regs: s.regs, result: s.regs[lo_nibble(b0) as int] },
            ),
            None => (
                VmState { ip: ip2, regs: s.regs, result: s.result },
                Err(Error::UnknownOpcode(hi_nibble(b0), ip2 as usize)),
            ),
        }
    }
}

/// A fetch attempted with fewer than two bytes remaining fails with
/// `UnexpectedEndOfProgram` carrying the program counter, and leaves the
/// whole state untouched. In particular a program of odd byte length, or
/// one cut short of its next instruction, ends this way whenever execution
/// reaches its ragged end.
pub proof fn lemma_truncated_fetch(code: Seq<u8>, s: VmState)
    requires
        s.ip + 2 > code.len(),
    ensures
        run_from(code, s) == (s, Err::<(), Error>(Error::UnexpectedEndOfProgram(s.ip as usize))),
{
}

/// An operation-code nibble of 7 through 15, wherever it stands in the
/// stream, fails the run with `UnknownOpcode` carrying that nibble and the
/// advanced program counter, and touches neither the registers nor the
/// result.
pub proof fn lemma_unknown_opcode(code: Seq<u8>, s: VmState)
    requires
        s.ip + 2 <= code.len(),
        7 <= hi_nibble(code[s.ip as int]),
    ensures
        run_from(code, s).1 == Err::<(), Error>(
            Error::UnknownOpcode(hi_nibble(code[s.ip as int]), (s.ip + 2) as usize),
        ),
        run_from(code, s).0.regs == s.regs,
        run_from(code, s).0.result == s.result,
        run_from(code, s).0.ip == s.ip + 2,
{
    assert(hi_nibble(code[s.ip as int]) < 16) by {
        let b = code[s.ip as int];
        assert(b / 16 < 16) by (bit_vector);
    }
}

/// A division instruction whose divisor register holds zero fails the run
/// with `DivisionByZero` carrying the advanced program counter, and never
/// mutates the destination register — or any other: the registers and the
/// result come out exactly as they went in.
pub proof fn lemma_div_by_zero(code: Seq<u8>, s: VmState)
    requires
        s.ip + 2 <= code.len(),
        op_from_code_spec(hi_nibble(code[s.ip as int])) == Some(Op::Div),
        s.regs[hi_nibble(code[s.ip as int + 1]) as int] == 0,
    ensures
        run_from(code, s).1 == Err::<(), Error>(Error::DivisionByZero((s.ip + 2) as usize)),
        run_from(code, s).0.regs == s.regs,
        run_from(code, s).0.result == s.result,
        run_from(code, s).0.ip == s.ip + 2,
{
}

/// Immediately after a reset, before any instruction executes, every
/// register and the result read as zero and the program counter is zero:
/// a run after a reset starts from nothing but [`init_state`].
pub proof fn lemma_init_state_zero()
    ensures
        init_state().ip == 0,
        init_state().result == 0,
        init_state().regs.len() == REGISTER_NUM,
        forall|i: int| 0 <= i < REGISTER_NUM ==> init_state().regs[i] == 0u64,
{
}

/// The program counter moves by exactly two bytes per executed
/// instruction: started at an even offset it is still even when the run
/// halts or fails, whatever the program holds. In particular a run from
/// the initial state can only stop at an even offset, so a program of odd
/// byte length always has a ragged last byte that no fetch can cover.
pub proof fn lemma_ip_stays_even(code: Seq<u8>, s: VmState)
    requires
        s.ip % 2 == 0,
    ensures
        run_from(code, s).0.ip % 2 == 0,
    decreases code.len() - s.ip,
{
    if s.ip + 2 > code.len() {
    } else {
        let b0 = code[s.ip as int];
        let b1 = code[s.ip as int + 1];
        let ip2 = (s.ip + 2) as nat;
        match op_from_code_spec(hi_nibble(b0)) {
            Some(Op::Done) => {}
            Some(Op::LoadI) => {
                lemma_ip_stays_even(
                    code,
                    VmState {
                        ip: ip2,
                        regs: s.regs.update(lo_nibble(b0) as int, b1 as u64),
                        result: s.result,
                    },
                );
            }
            Some(Op::Add) => {
                lemma_ip_stays_even(
                    code,
                    VmState {
                        ip: ip2,
                        regs: s.regs.update(
                            lo_nibble(b1) as int,
                            vstd::wrapping::u64_specs::wrapping_add(
                                s.regs[lo_nibble(b0) as int],
                                s.regs[hi_nibble(b1) as int],
                            ),
                        ),
                        result: s.result,
                    },
                );
            }
            Some(Op::Sub) => {
                lemma_ip_stays_even(
                    code,
                    VmState {
                        ip: ip2,
                        regs: s.regs.update(
                            lo_nibble(b1) as int,
                            vstd::wrapping::u64_specs::wrapping_sub(
                                s.regs[lo_nibble(b0) as int],
                                s.regs[hi_nibble(b1) as int],
                            ),
                        ),
                        result: s.result,
                    },
                );
            }
            Some(Op::Div) => {
                if s.regs[hi_nibble(b1) as int] == 0 {
                } else {
                    lemma_ip_stays_even(
                        code,
                        VmState {
                            ip: ip2,
                            regs: s.regs.update(
                                lo_nibble(b1) as int,
                                (s.regs[lo_nibble(b0) as int] / s.regs[hi_nibble(
                                    b1,
                                ) as int]) as u64,
                            ),
                            result: s.result,
                        },
                    );
                }
            }
            Some(Op::Mul) => {
                lemma_ip_stays_even(
                    code,
                    VmState {
                        ip: ip2,
                        regs: s.regs.update(
                            lo_nibble(b1) as int,
                            vstd::wrapping::u64_specs::wrapping_mul(
                                s.regs[lo_nibble(b0) as int],
                                s.regs[hi_nibble(b1) as int],
                            ),
                        ),
                        result: s.result,
                    },
                );
            }
            Some(Op::MovRes) => {
                lemma_ip_stays_even(
                    code,
                    VmState { ip: ip2, regs: s.regs, result: s.regs[lo_nibble(b0) as int] },
                );
            }
            None => {}
        }
    }
}

/// The machine: a program counter, the register file and the result cell.
pub struct Vm {
    ip: usize,
    reg: Vec<u64>,
    result: u64,
}

impl View for Vm {
    type V = VmState;

    closed spec fn view(&self) -> VmState {
        VmState { ip: self.ip as nat, regs: self.reg@, result: self.result }
    }
}

impl Vm {
    /// The machine's structural invariant: the register file holds exactly
    /// [`REGISTER_NUM`] registers.
    pub open spec fn wf(self) -> bool {
        self@.regs.len() == REGISTER_NUM
    }

    /// A fresh machine: program counter, registers and result all zero.
    pub fn new() -> (r: Vm)
        ensures
            r.wf(),
            r@ == init_state(),
    {
        let mut reg: Vec<u64> = Vec::new();
        while reg.len() < REGISTER_NUM
            invariant
                reg@.len() <= REGISTER_NUM,
                forall|i: int| 0 <= i < reg@.len() ==> reg@[i] == 0u64,
            decreases REGISTER_NUM - reg@.len(),
        {
            reg.push(0);
        }
        proof {
            assert(reg@ =~= init_state().regs);
        }
        Vm { ip: 0, reg, result: 0 }
    }

    /// Restores the freshly constructed state: program counter zero, every
    /// register zero, result zero. Always succeeds, whatever came before.
    pub fn reset(&mut self)
        ensures
            final(self).wf(),
            final(self)@ == init_state(),
    {
        *self = Vm::new();
    }

    /// The machine's externally observable output: the value last moved
    /// into the result cell, zero if none ever was.
    pub fn result(&self) -> (r: u64)
        ensures
            r == self@.result,
    {
        self.result
    }

    /// Fetches the byte at the program counter and advances the counter by
    /// one; yields nothing, and leaves the machine unchanged, when the
    /// counter is already past the end of the stream.
    pub fn next_i(&mut self, bytecode: &[u8]) -> (r: Option<u8>)
        ensures
            final(self)@.regs == old(self)@.regs,
            final(self)@.result == old(self)@.result,
            old(self)@.ip < bytecode@.len() ==> r == Some(bytecode@[old(self)@.ip as int])
                && final(self)@.ip == old(self)@.ip + 1,
            old(self)@.ip >= bytecode@.len() ==> r == None::<u8> && *final(self) == *old(self),
    {
        if self.ip < bytecode.len() {
            let a = bytecode[self.ip];
            self.ip = self.ip + 1;
            Some(a)
        } else {
            None
        }
    }

    /// Runs a full program from the start: resets the machine, then
    /// fetches, decodes and executes two-byte instructions until `Done`
    /// halts the run or an error aborts it.
    ///
    /// The outcome and the final machine state are exactly those of
    /// [`run_from`] on the byte stream from [`init_state`]; in particular
    /// they do not depend on any state left by earlier runs.
    pub fn interp(&mut self, bytecode: &[u8]) -> (r: Result<(), Error>)
        ensures
            final(self).wf(),
            final(self)@ == run_from(bytecode@, init_state()).0,
            r == run_from(bytecode@, init_state()).1,
    {
        self.reset();

        loop
            invariant
                self.wf(),
                self@.ip <= bytecode@.len(),
                run_from(bytecode@, self@) == run_from(bytecode@, init_state()),
            decreases bytecode@.len() - self@.ip,
        {
            let ghost s0 = self@;

            if bytecode.len() - self.ip < 2 {
                return Err(Error::UnexpectedEndOfProgram(self.ip));
            }

            let ins1 = self.next_i(bytecode).unwrap();
            let ins2 = self.next_i(bytecode).unwrap();

            let insv = Inst::from_slice([ins1, ins2]);

            match Op::from_code(insv.op()) {
                Some(Op::LoadI) => {
                    let d = insv.reg0();
                    let v = insv.imm();
                    self.reg[d] = v;
                }
                Some(Op::Add) => {
                    let v = self.reg[insv.reg0()].wrapping_add(self.reg[insv.reg1()]);
                    self.reg[insv.reg2()] = v;
                }
                Some(Op::Sub) => {
                    let v = self.reg[insv.reg0()].wrapping_sub(self.reg[insv.reg1()]);
                    self.reg[insv.reg2()] = v;
                }
                Some(Op::Div) => {
                    let r1 = self.reg[insv.reg1()];
                    if r1 == 0 {
                        return Err(Error::DivisionByZero(self.ip));
                    }
                    let v = self.reg[insv.reg0()] / r1;
                    self.reg[insv.reg2()] = v;
                }
                Some(Op::Mul) => {
                    let v = self.reg[insv.reg0()].wrapping_mul(self.reg[insv.reg1()]);
                    self.reg[insv.reg2()] = v;
                }
                Some(Op::MovRes) => {
                    self.result = self.reg[insv.reg0()];
                }
                Some(Op::Done) => {
                    return Ok(());
                }
                None => {
                    return Err(Error::UnknownOpcode(insv.op(), self.ip));
                }
            }

            proof {
                assert(run_from(bytecode@, s0) == run_from(bytecode@, self@));
            }
        }
    }
}

impl Default for Vm {
    /// A fresh machine, as [`Vm::new`] builds it.
    fn default() -> (r: Vm)
        ensures
            r.wf(),
            r@ == init_state(),
    {
        Vm::new()
    }
}

} // verus!
