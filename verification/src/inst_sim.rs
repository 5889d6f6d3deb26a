//! Execution engine: one instruction per `step`, with a bit-exact
//! relation between the state before the step, the state after it, and
//! the emitted log record.
//!
//! Values read from uninitialized registers or memory under the `Random`
//! init policy are not determined by the pre-state; the relation
//! therefore pins every outcome down through the values recorded in the
//! log: each recorded input must be one the pre-state allows, and the
//! committed effects are exact functions of the recorded inputs.

use vstd::prelude::*;

use crate::inst::{Instruction, Register};
use crate::inst_decoding::{decode_inst, spec_decode};
use crate::inst_log::{InstLog, Value, ValueOrigin};
use crate::{DRVSim, SimError, ValueInit};
use crate::{reg_latch, reg_read_consistent, reg_read_ok, reg_store};

verus! {

/// A register's word reinterpreted as a two's-complement signed integer.
pub open spec fn as_signed(v: u32) -> int {
    if v >= 0x80000000 {
        v - 0x100000000
    } else {
        v as int
    }
}

/// Signed less-than on two's-complement 32-bit words.
pub open spec fn signed_lt(a: u32, b: u32) -> bool {
    as_signed(a) < as_signed(b)
}

/// Arithmetic right shift: the vacated high bits replicate the sign bit.
pub open spec fn sra32(a: u32, s: u32) -> u32
    recommends
        s < 32,
{
    if a >= 0x80000000 {
        (a >> s) | (!(0xFFFFFFFFu32 >> s))
    } else {
        a >> s
    }
}

/// A byte sign-extended to 32 bits.
pub open spec fn sext8(v: u32) -> u32
    recommends
        v <= 0xFF,
{
    if v >= 0x80 {
        v | 0xFFFFFF00u32
    } else {
        v
    }
}

/// A half-word sign-extended to 32 bits.
pub open spec fn sext16(v: u32) -> u32
    recommends
        v <= 0xFFFF,
{
    if v >= 0x8000 {
        v | 0xFFFF0000u32
    } else {
        v
    }
}

/// The value a register commit reports: writes to `X0` are dropped and
/// report 0.
pub open spec fn commit_val(rd: Register, v: u32) -> u32 {
    if rd == Register::X0 {
        0
    } else {
        v
    }
}

/// A register-origin traced value.
pub open spec fn rv(r: Register, v: u32) -> Value {
    Value { origin: ValueOrigin::Register(r), val: v }
}

/// A memory-origin traced value.
pub open spec fn mv(adr: u32, bytes: u32, v: u32) -> Value {
    Value { origin: ValueOrigin::Memory { adr, bytes }, val: v }
}

/// The register init policy of a simulator.
pub open spec fn rinit(s: DRVSim) -> ValueInit {
    s.config.reg_init
}

/// The two states are observationally identical.
pub open spec fn state_eq(pre: DRVSim, post: DRVSim) -> bool {
    &&& post.pc == pre.pc
    &&& post.core_reg@ == pre.core_reg@
    &&& post.mems == pre.mems
    &&& post.config == pre.config
}

/// Memory and configuration are untouched.
pub open spec fn frame_mems(pre: DRVSim, post: DRVSim) -> bool {
    post.mems == pre.mems && post.config == pre.config
}

/// Log header fields every successful step reports: the fetch address,
/// the decoded instruction, and clear reserved flags.
pub open spec fn log_common(pre: DRVSim, log: InstLog, inst: Instruction) -> bool {
    &&& log.pc == pre.pc
    &&& log.inst == inst
    &&& log.handling_trap == false
    &&& log.debug_mode == false
}

/// The faults an instruction reading `rs1` and then `rs2` can raise, and
/// the (unchanged) state it leaves behind. A register read fails only
/// under the `Error` policy, which latches nothing, so the state is
/// exactly the pre-state.
pub open spec fn two_reg_read_err(
    pre: DRVSim,
    post: DRVSim,
    rs1: Register,
    rs2: Register,
    e: SimError,
) -> bool {
    ||| {
        &&& !reg_read_ok(pre.core_reg@, rinit(pre), rs1)
        &&& e == SimError::UninitRegister(rs1)
        &&& state_eq(pre, post)
    }
    ||| {
        &&& reg_read_ok(pre.core_reg@, rinit(pre), rs1)
        &&& !reg_read_ok(pre.core_reg@, rinit(pre), rs2)
        &&& e == SimError::UninitRegister(rs2)
        &&& state_eq(pre, post)
    }
}

/// An instruction that reads nothing and commits `res` to `rd`
/// (LUI, AUIPC): it cannot fault.
pub open spec fn rel_no_input(
    pre: DRVSim,
    post: DRVSim,
    inst: Instruction,
    r: Result<InstLog, SimError>,
    rd: Register,
    res: u32,
) -> bool {
    match r {
        Ok(log) => {
            &&& log_common(pre, log, inst)
            &&& log.input_values@.len() == 0
            &&& log.commit_values@.len() == 1
            &&& log.commit_values@[0] == rv(rd, commit_val(rd, res))
            &&& log.branching is None
            &&& post.pc == pre.pc.wrapping_add(4)
            &&& post.core_reg@ == reg_store(pre.core_reg@, rd, res)
            &&& frame_mems(pre, post)
        },
        Err(_) => false,
    }
}

/// JAL: commit the return address to `rd` and branch to `pc + imm`.
pub open spec fn rel_jal(
    pre: DRVSim,
    post: DRVSim,
    inst: Instruction,
    r: Result<InstLog, SimError>,
    rd: Register,
    imm: u32,
) -> bool {
    let target = pre.pc.wrapping_add(imm);
    let link = pre.pc.wrapping_add(4);
    match r {
        Ok(log) => {
            &&& log_common(pre, log, inst)
            &&& log.input_values@.len() == 0
            &&& log.commit_values@.len() == 1
            &&& log.commit_values@[0] == rv(rd, commit_val(rd, link))
            &&& log.branching == Some(target)
            &&& post.pc == target
            &&& post.core_reg@ == reg_store(pre.core_reg@, rd, link)
            &&& frame_mems(pre, post)
        },
        Err(_) => false,
    }
}

/// JALR: read `rs1`, commit the return address to `rd`, and branch to
/// `(rs1 + imm)` with the low bit cleared.
pub open spec fn rel_jalr(
    pre: DRVSim,
    post: DRVSim,
    inst: Instruction,
    r: Result<InstLog, SimError>,
    rs1: Register,
    rd: Register,
    imm: u32,
) -> bool {
    let link = pre.pc.wrapping_add(4);
    match r {
        Ok(log) => {
            let v1 = log.input_values@[0].val;
            let target = v1.wrapping_add(imm) & (!1u32);
            &&& log_common(pre, log, inst)
            &&& log.input_values@.len() == 1
            &&& log.input_values@[0] == rv(rs1, v1)
            &&& reg_read_consistent(pre.core_reg@, rinit(pre), rs1, v1)
            &&& log.commit_values@.len() == 1
            &&& log.commit_values@[0] == rv(rd, commit_val(rd, link))
            &&& log.branching == Some(target)
            &&& post.pc == target
            &&& post.core_reg@ == reg_store(reg_latch(pre.core_reg@, rs1, v1), rd, link)
            &&& frame_mems(pre, post)
        },
        Err(e) => {
            &&& !reg_read_ok(pre.core_reg@, rinit(pre), rs1)
            &&& e == SimError::UninitRegister(rs1)
            &&& state_eq(pre, post)
        },
    }
}

/// A register-immediate ALU instruction: read `rs1`, commit `f(rs1)` to
/// `rd`, advance the program counter by four.
pub open spec fn rel_alu_imm(
    pre: DRVSim,
    post: DRVSim,
    inst: Instruction,
    r: Result<InstLog, SimError>,
    rs1: Register,
    rd: Register,
    f: spec_fn(u32) -> u32,
) -> bool {
    match r {
        Ok(log) => {
            let v1 = log.input_values@[0].val;
            &&& log_common(pre, log, inst)
            &&& log.input_values@.len() == 1
            &&& log.input_values@[0] == rv(rs1, v1)
            &&& reg_read_consistent(pre.core_reg@, rinit(pre), rs1, v1)
            &&& log.commit_values@.len() == 1
            &&& log.commit_values@[0] == rv(rd, commit_val(rd, f(v1)))
            &&& log.branching is None
            &&& post.pc == pre.pc.wrapping_add(4)
            &&& post.core_reg@ == reg_store(reg_latch(pre.core_reg@, rs1, v1), rd, f(v1))
            &&& frame_mems(pre, post)
        },
        Err(e) => {
            &&& !reg_read_ok(pre.core_reg@, rinit(pre), rs1)
            &&& e == SimError::UninitRegister(rs1)
            &&& state_eq(pre, post)
        },
    }
}

/// A register-register ALU instruction: read `rs1` then `rs2`, commit
/// `f(rs1, rs2)` to `rd`, advance the program counter by four.
pub open spec fn rel_alu_rr(
    pre: DRVSim,
    post: DRVSim,
    inst: Instruction,
    r: Result<InstLog, SimError>,
    rs1: Register,
    rs2: Register,
    rd: Register,
    f: spec_fn(u32, u32) -> u32,
) -> bool {
    match r {
        Ok(log) => {
            let v1 = log.input_values@[0].val;
            let v2 = log.input_values@[1].val;
            &&& log_common(pre, log, inst)
            &&& log.input_values@.len() == 2
            &&& log.input_values@[0] == rv(rs1, v1)
            &&& log.input_values@[1] == rv(rs2, v2)
            &&& reg_read_consistent(pre.core_reg@, rinit(pre), rs1, v1)
            &&& reg_read_consistent(reg_latch(pre.core_reg@, rs1, v1), rinit(pre), rs2, v2)
            &&& log.commit_values@.len() == 1
            &&& log.commit_values@[0] == rv(rd, commit_val(rd, f(v1, v2)))
            &&& log.branching is None
            &&& post.pc == pre.pc.wrapping_add(4)
            &&& post.core_reg@ == reg_store(
                reg_latch(reg_latch(pre.core_reg@, rs1, v1), rs2, v2),
                rd,
                f(v1, v2),
            )
            &&& frame_mems(pre, post)
        },
        Err(e) => two_reg_read_err(pre, post, rs1, rs2, e),
    }
}

/// A conditional branch: read `rs1` then `rs2`; if `cond` holds branch to
/// `pc + imm`, else advance by four. Nothing is committed.
pub open spec fn rel_branch(
    pre: DRVSim,
    post: DRVSim,
    inst: Instruction,
    r: Result<InstLog, SimError>,
    rs1: Register,
    rs2: Register,
    imm: u32,
    cond: spec_fn(u32, u32) -> bool,
) -> bool {
    match r {
        Ok(log) => {
            let v1 = log.input_values@[0].val;
            let v2 = log.input_values@[1].val;
            let taken = cond(v1, v2);
            let target = pre.pc.wrapping_add(imm);
            &&& log_common(pre, log, inst)
            &&& log.input_values@.len() == 2
            &&& log.input_values@[0] == rv(rs1, v1)
            &&& log.input_values@[1] == rv(rs2, v2)
            &&& reg_read_consistent(pre.core_reg@, rinit(pre), rs1, v1)
            &&& reg_read_consistent(reg_latch(pre.core_reg@, rs1, v1), rinit(pre), rs2, v2)
            &&& log.commit_values@.len() == 0
            &&& log.branching == (if taken {
                Some(target)
            } else {
                None::<u32>
            })
            &&& post.pc == (if taken {
                target
            } else {
                pre.pc.wrapping_add(4)
            })
            &&& post.core_reg@ == reg_latch(reg_latch(pre.core_reg@, rs1, v1), rs2, v2)
            &&& frame_mems(pre, post)
        },
        Err(e) => two_reg_read_err(pre, post, rs1, rs2, e),
    }
}

/// A load: read `rs1`, then `bytes` bytes of memory at `rs1 + imm`, and
/// commit `ext` of the zero-extended loaded value to `rd`.
pub open spec fn rel_load(
    pre: DRVSim,
    post: DRVSim,
    inst: Instruction,
    r: Result<InstLog, SimError>,
    rs1: Register,
    rd: Register,
    imm: u32,
    bytes: u32,
    ext: spec_fn(u32) -> u32,
) -> bool {
    match r {
        Ok(log) => {
            let v1 = log.input_values@[0].val;
            let adr = v1.wrapping_add(imm);
            let m = log.input_values@[1].val;
            &&& log_common(pre, log, inst)
            &&& log.input_values@.len() == 2
            &&& log.input_values@[0] == rv(rs1, v1)
            &&& reg_read_consistent(pre.core_reg@, rinit(pre), rs1, v1)
            &&& log.input_values@[1] == mv(adr, bytes, m)
            &&& pre.read_ok_spec(adr, bytes)
            &&& pre.read_consistent_spec(adr, bytes, m)
            &&& log.commit_values@.len() == 1
            &&& log.commit_values@[0] == rv(rd, commit_val(rd, ext(m)))
            &&& log.branching is None
            &&& post.pc == pre.pc.wrapping_add(4)
            &&& post.core_reg@ == reg_store(reg_latch(pre.core_reg@, rs1, v1), rd, ext(m))
            &&& frame_mems(pre, post)
        },
        Err(e) => {
            ||| {
                &&& !reg_read_ok(pre.core_reg@, rinit(pre), rs1)
                &&& e == SimError::UninitRegister(rs1)
                &&& state_eq(pre, post)
            }
            ||| (exists|v1: u32|
                {
                    let adr = v1.wrapping_add(imm);
                    &&& #[trigger] reg_read_consistent(pre.core_reg@, rinit(pre), rs1, v1)
                    &&& !pre.read_ok_spec(adr, bytes)
                    &&& e == pre.read_err_spec(adr, bytes)
                    &&& post.pc == pre.pc
                    &&& post.core_reg@ == reg_latch(pre.core_reg@, rs1, v1)
                    &&& frame_mems(pre, post)
                })
        },
    }
}

/// A store: read `rs1` then `rs2`, and store the low `bytes` bytes of
/// `rs2` to memory at `rs1 + imm`.
pub open spec fn rel_store(
    pre: DRVSim,
    post: DRVSim,
    inst: Instruction,
    r: Result<InstLog, SimError>,
    rs1: Register,
    rs2: Register,
    imm: u32,
    bytes: u32,
) -> bool {
    match r {
        Ok(log) => {
            let v1 = log.input_values@[0].val;
            let v2 = log.input_values@[1].val;
            let adr = v1.wrapping_add(imm);
            let sv = if bytes == 1 {
                v2 & 0xFF
            } else if bytes == 2 {
                v2 & 0xFFFF
            } else {
                v2
            };
            &&& log_common(pre, log, inst)
            &&& log.input_values@.len() == 2
            &&& log.input_values@[0] == rv(rs1, v1)
            &&& log.input_values@[1] == rv(rs2, v2)
            &&& reg_read_consistent(pre.core_reg@, rinit(pre), rs1, v1)
            &&& reg_read_consistent(reg_latch(pre.core_reg@, rs1, v1), rinit(pre), rs2, v2)
            &&& log.commit_values@.len() == 1
            &&& log.commit_values@[0] == mv(adr, bytes, sv)
            &&& log.branching is None
            &&& pre.write_ok_spec(adr, bytes)
            &&& pre.mems_stored(post, adr, bytes, sv)
            &&& post.config == pre.config
            &&& post.pc == pre.pc.wrapping_add(4)
            &&& post.core_reg@ == reg_latch(reg_latch(pre.core_reg@, rs1, v1), rs2, v2)
        },
        Err(e) => {
            ||| two_reg_read_err(pre, post, rs1, rs2, e)
            ||| (exists|v1: u32, v2: u32|
                {
                    let adr = v1.wrapping_add(imm);
                    &&& #[trigger] reg_read_consistent(pre.core_reg@, rinit(pre), rs1, v1)
                    &&& #[trigger] reg_read_consistent(
                        reg_latch(pre.core_reg@, rs1, v1),
                        rinit(pre),
                        rs2,
                        v2,
                    )
                    &&& !pre.write_ok_spec(adr, bytes)
                    &&& e == pre.write_err_spec(adr, bytes)
                    &&& post.pc == pre.pc
                    &&& post.core_reg@ == reg_latch(reg_latch(pre.core_reg@, rs1, v1), rs2, v2)
                    &&& frame_mems(pre, post)
                })
        },
    }
}

/// FENCE: a no-op — the model is sequentially consistent.
pub open spec fn rel_fence(
    pre: DRVSim,
    post: DRVSim,
    inst: Instruction,
    r: Result<InstLog, SimError>,
) -> bool {
    match r {
        Ok(log) => {
            &&& log_common(pre, log, inst)
            &&& log.input_values@.len() == 0
            &&& log.commit_values@.len() == 0
            &&& log.branching is None
            &&& post.pc == pre.pc.wrapping_add(4)
            &&& post.core_reg@ == pre.core_reg@
            &&& frame_mems(pre, post)
        },
        Err(_) => false,
    }
}

/// What executing a decoded instruction does: the relation between the
/// pre-state, the post-state, and the step's outcome, per instruction.
pub open spec fn exec_rel(
    pre: DRVSim,
    post: DRVSim,
    inst: Instruction,
    r: Result<InstLog, SimError>,
) -> bool {
    match inst {
        Instruction::LUI { imm, rd } => rel_no_input(pre, post, inst, r, rd, imm),
        Instruction::AUIPC { imm, rd } => rel_no_input(
            pre,
            post,
            inst,
            r,
            rd,
            pre.pc.wrapping_add(imm),
        ),
        Instruction::JAL { imm, rd } => rel_jal(pre, post, inst, r, rd, imm),
        Instruction::JALR { imm, rs1, rd } => rel_jalr(pre, post, inst, r, rs1, rd, imm),
        Instruction::BEQ { imm, rs2, rs1 } => rel_branch(
            pre,
            post,
            inst,
            r,
            rs1,
            rs2,
            imm,
            |a: u32, b: u32| a == b,
        ),
        Instruction::BNE { imm, rs2, rs1 } => rel_branch(
            pre,
            post,
            inst,
            r,
            rs1,
            rs2,
            imm,
            |a: u32, b: u32| a != b,
        ),
        Instruction::BLT { imm, rs2, rs1 } => rel_branch(
            pre,
            post,
            inst,
            r,
            rs1,
            rs2,
            imm,
            |a: u32, b: u32| signed_lt(a, b),
        ),
        Instruction::BGE { imm, rs2, rs1 } => rel_branch(
            pre,
            post,
            inst,
            r,
            rs1,
            rs2,
            imm,
            |a: u32, b: u32| !signed_lt(a, b),
        ),
        Instruction::BLTU { imm, rs2, rs1 } => rel_branch(
            pre,
            post,
            inst,
            r,
            rs1,
            rs2,
            imm,
            |a: u32, b: u32| a < b,
        ),
        Instruction::BGEU { imm, rs2, rs1 } => rel_branch(
            pre,
            post,
            inst,
            r,
            rs1,
            rs2,
            imm,
            |a: u32, b: u32| a >= b,
        ),
        Instruction::LB { imm, rs1, rd } => rel_load(
            pre,
            post,
            inst,
            r,
            rs1,
            rd,
            imm,
            1,
            |m: u32| sext8(m),
        ),
        Instruction::LH { imm, rs1, rd } => rel_load(
            pre,
            post,
            inst,
            r,
            rs1,
            rd,
            imm,
            2,
            |m: u32| sext16(m),
        ),
        Instruction::LW { imm, rs1, rd } => rel_load(pre, post, inst, r, rs1, rd, imm, 4, |m: u32| m),
        Instruction::LBU { imm, rs1, rd } => rel_load(
            pre,
            post,
            inst,
            r,
            rs1,
            rd,
            imm,
            1,
            |m: u32| m,
        ),
        Instruction::LHU { imm, rs1, rd } => rel_load(
            pre,
            post,
            inst,
            r,
            rs1,
            rd,
            imm,
            2,
            |m: u32| m,
        ),
        Instruction::SB { imm, rs2, rs1 } => rel_store(pre, post, inst, r, rs1, rs2, imm, 1),
        Instruction::SH { imm, rs2, rs1 } => rel_store(pre, post, inst, r, rs1, rs2, imm, 2),
        Instruction::SW { imm, rs2, rs1 } => rel_store(pre, post, inst, r, rs1, rs2, imm, 4),
        Instruction::ADDI { imm, rs1, rd } => rel_alu_imm(
            pre,
            post,
            inst,
            r,
            rs1,
            rd,
            |v: u32| v.wrapping_add(imm),
        ),
        Instruction::SLTI { imm, rs1, rd } => rel_alu_imm(
            pre,
            post,
            inst,
            r,
            rs1,
            rd,
            |v: u32|
                if signed_lt(v, imm) {
                    1u32
                } else {
                    0u32
                },
        ),
        Instruction::SLTIU { imm, rs1, rd } => rel_alu_imm(
            pre,
            post,
            inst,
            r,
            rs1,
            rd,
            |v: u32|
                if v < imm {
                    1u32
                } else {
                    0u32
                },
        ),
        Instruction::XORI { imm, rs1, rd } => rel_alu_imm(
            pre,
            post,
            inst,
            r,
            rs1,
            rd,
            |v: u32| v ^ imm,
        ),
        Instruction::ORI { imm, rs1, rd } => rel_alu_imm(
            pre,
            post,
            inst,
            r,
            rs1,
            rd,
            |v: u32| v | imm,
        ),
        Instruction::ANDI { imm, rs1, rd } => rel_alu_imm(
            pre,
            post,
            inst,
            r,
            rs1,
            rd,
            |v: u32| v & imm,
        ),
        Instruction::SLLI { shamt, rs1, rd } => rel_alu_imm(
            pre,
            post,
            inst,
            r,
            rs1,
            rd,
            |v: u32| v << shamt,
        ),
        Instruction::SRLI { shamt, rs1, rd } => rel_alu_imm(
            pre,
            post,
            inst,
            r,
            rs1,
            rd,
            |v: u32| v >> shamt,
        ),
        Instruction::SRAI { shamt, rs1, rd } => rel_alu_imm(
            pre,
            post,
            inst,
            r,
            rs1,
            rd,
            |v: u32| sra32(v, shamt),
        ),
        Instruction::ADD { rs2, rs1, rd } => rel_alu_rr(
            pre,
            post,
            inst,
            r,
            rs1,
            rs2,
            rd,
            |a: u32, b: u32| a.wrapping_add(b),
        ),
        Instruction::SUB { rs2, rs1, rd } => rel_alu_rr(
            pre,
            post,
            inst,
            r,
            rs1,
            rs2,
            rd,
            |a: u32, b: u32| a.wrapping_sub(b),
        ),
        Instruction::SLL { rs2, rs1, rd } => rel_alu_rr(
            pre,
            post,
            inst,
            r,
            rs1,
            rs2,
            rd,
            |a: u32, b: u32| a << (b & 0x1F),
        ),
        Instruction::SLT { rs2, rs1, rd } => rel_alu_rr(
            pre,
            post,
            inst,
            r,
            rs1,
            rs2,
            rd,
            |a: u32, b: u32|
                if signed_lt(a, b) {
                    1u32
                } else {
                    0u32
                },
        ),
        Instruction::SLTU { rs2, rs1, rd } => rel_alu_rr(
            pre,
            post,
            inst,
            r,
            rs1,
            rs2,
            rd,
            |a: u32, b: u32|
                if a < b {
                    1u32
                } else {
                    0u32
                },
        ),
        Instruction::XOR { rs2, rs1, rd } => rel_alu_rr(
            pre,
            post,
            inst,
            r,
            rs1,
            rs2,
            rd,
            |a: u32, b: u32| a ^ b,
        ),
        Instruction::SRL { rs2, rs1, rd } => rel_alu_rr(
            pre,
            post,
            inst,
            r,
            rs1,
            rs2,
            rd,
            |a: u32, b: u32| a >> (b & 0x1F),
        ),
        Instruction::SRA { rs2, rs1, rd } => rel_alu_rr(
            pre,
            post,
            inst,
            r,
            rs1,
            rs2,
            rd,
            |a: u32, b: u32| sra32(a, b & 0x1F),
        ),
        Instruction::OR { rs2, rs1, rd } => rel_alu_rr(
            pre,
            post,
            inst,
            r,
            rs1,
            rs2,
            rd,
            |a: u32, b: u32| a | b,
        ),
        Instruction::AND { rs2, rs1, rd } => rel_alu_rr(
            pre,
            post,
            inst,
            r,
            rs1,
            rs2,
            rd,
            |a: u32, b: u32| a & b,
        ),
        Instruction::FENCE { .. } => rel_fence(pre, post, inst, r),
        Instruction::ECALL => r == Err::<InstLog, SimError>(SimError::NotImplemented(inst))
            && state_eq(pre, post),
        Instruction::EBREAK => r == Err::<InstLog, SimError>(SimError::NotImplemented(inst))
            && state_eq(pre, post),
        Instruction::DRET => r == Err::<InstLog, SimError>(SimError::NotImplemented(inst))
            && state_eq(pre, post),
        Instruction::MRET => r == Err::<InstLog, SimError>(SimError::NotImplemented(inst))
            && state_eq(pre, post),
    }
}

/// The register an instruction commits a result to, where it has one.
pub open spec fn inst_dest(i: Instruction) -> Option<Register> {
    match i {
        Instruction::LUI { rd, .. } => Some(rd),
        Instruction::AUIPC { rd, .. } => Some(rd),
        Instruction::JAL { rd, .. } => Some(rd),
        Instruction::JALR { rd, .. } => Some(rd),
        Instruction::LB { rd, .. } => Some(rd),
        Instruction::LH { rd, .. } => Some(rd),
        Instruction::LW { rd, .. } => Some(rd),
        Instruction::LBU { rd, .. } => Some(rd),
        Instruction::LHU { rd, .. } => Some(rd),
        Instruction::ADDI { rd, .. } => Some(rd),
        Instruction::SLTI { rd, .. } => Some(rd),
        Instruction::SLTIU { rd, .. } => Some(rd),
        Instruction::XORI { rd, .. } => Some(rd),
        Instruction::ORI { rd, .. } => Some(rd),
        Instruction::ANDI { rd, .. } => Some(rd),
        Instruction::SLLI { rd, .. } => Some(rd),
        Instruction::SRLI { rd, .. } => Some(rd),
        Instruction::SRAI { rd, .. } => Some(rd),
        Instruction::ADD { rd, .. } => Some(rd),
        Instruction::SUB { rd, .. } => Some(rd),
        Instruction::SLL { rd, .. } => Some(rd),
        Instruction::SLT { rd, .. } => Some(rd),
        Instruction::SLTU { rd, .. } => Some(rd),
        Instruction::XOR { rd, .. } => Some(rd),
        Instruction::SRL { rd, .. } => Some(rd),
        Instruction::SRA { rd, .. } => Some(rd),
        Instruction::OR { rd, .. } => Some(rd),
        Instruction::AND { rd, .. } => Some(rd),
        _ => None,
    }
}

/// A commit to `rd` changes no other register slot.
proof fn lemma_frame_store(regs: Seq<Option<u32>>, rd: Register)
    requires
        regs.len() == 18,
    ensures
        forall|res: u32, j: int|
            0 <= j < 18 && #[trigger] reg_store(regs, rd, res)[j] != regs[j] ==> j
                == crate::inst::reg_id(rd) && rd != Register::X0,
{
}

/// A commit to `rd` after one register read changes only the `rd` slot
/// or initializes the absent slot the read latched.
proof fn lemma_frame_latch1_store(regs: Seq<Option<u32>>, rs1: Register, rd: Register)
    requires
        regs.len() == 18,
    ensures
        forall|v1: u32, res: u32, j: int|
            0 <= j < 18 && #[trigger] reg_store(reg_latch(regs, rs1, v1), rd, res)[j] != regs[j]
                ==> (j == crate::inst::reg_id(rd) && rd != Register::X0) || regs[j] is None,
{
}

/// A commit to `rd` after two register reads changes only the `rd` slot
/// or initializes absent slots the reads latched.
proof fn lemma_frame_latch2_store(
    regs: Seq<Option<u32>>,
    rs1: Register,
    rs2: Register,
    rd: Register,
)
    requires
        regs.len() == 18,
    ensures
        forall|v1: u32, v2: u32, res: u32, j: int|
            0 <= j < 18 && #[trigger] reg_store(
                reg_latch(reg_latch(regs, rs1, v1), rs2, v2),
                rd,
                res,
            )[j] != regs[j] ==> (j == crate::inst::reg_id(rd) && rd != Register::X0) || regs[j]
                is None,
{
}

/// Two register reads change nothing but absent slots they latch.
proof fn lemma_frame_latch2(regs: Seq<Option<u32>>, rs1: Register, rs2: Register)
    requires
        regs.len() == 18,
    ensures
        forall|v1: u32, v2: u32, j: int|
            0 <= j < 18 && #[trigger] reg_latch(reg_latch(regs, rs1, v1), rs2, v2)[j] != regs[j]
                ==> regs[j] is None,
{
}

/// The claim of `lemma_exec_mutates_only_prescribed`, shared by its
/// per-family cases.
pub open spec fn mutates_only_prescribed(
    pre: DRVSim,
    post: DRVSim,
    inst: Instruction,
) -> bool {
    &&& !(inst is SB || inst is SH || inst is SW) ==> post.mems == pre.mems
    &&& forall|j: int|
        0 <= j < 18 && #[trigger] post.core_reg@[j] != pre.core_reg@[j] ==> ((inst_dest(inst)
            matches Some(rd) && j == crate::inst::reg_id(rd) && rd != Register::X0)
            || pre.core_reg@[j] is None)
}

/// Case of `lemma_exec_mutates_only_prescribed` for LUI, AUIPC, JAL and
/// JALR.
proof fn lemma_frame_upper_jump(
    pre: DRVSim,
    post: DRVSim,
    inst: Instruction,
    r: Result<InstLog, SimError>,
)
    requires
        pre.wf(),
        exec_rel(pre, post, inst, r),
        r is Ok,
        inst is LUI || inst is AUIPC || inst is JAL || inst is JALR,
    ensures
        mutates_only_prescribed(pre, post, inst),
{
    let regs = pre.core_reg@;
    match inst {
        Instruction::LUI { rd, .. } => lemma_frame_store(regs, rd),
        Instruction::AUIPC { rd, .. } => lemma_frame_store(regs, rd),
        Instruction::JAL { rd, .. } => lemma_frame_store(regs, rd),
        Instruction::JALR { rs1, rd, .. } => lemma_frame_latch1_store(regs, rs1, rd),
        _ => {},
    }
}

/// Case of `lemma_exec_mutates_only_prescribed` for the branches and
/// the stores: neither commits a register.
proof fn lemma_frame_branch_store(
    pre: DRVSim,
    post: DRVSim,
    inst: Instruction,
    r: Result<InstLog, SimError>,
)
    requires
        pre.wf(),
        exec_rel(pre, post, inst, r),
        r is Ok,
        inst is BEQ || inst is BNE || inst is BLT || inst is BGE || inst is BLTU || inst is BGEU
            || inst is SB || inst is SH || inst is SW,
    ensures
        mutates_only_prescribed(pre, post, inst),
{
    let regs = pre.core_reg@;
    match inst {
        Instruction::BEQ { rs2, rs1, .. } => lemma_frame_latch2(regs, rs1, rs2),
        Instruction::BNE { rs2, rs1, .. } => lemma_frame_latch2(regs, rs1, rs2),
        Instruction::BLT { rs2, rs1, .. } => lemma_frame_latch2(regs, rs1, rs2),
        Instruction::BGE { rs2, rs1, .. } => lemma_frame_latch2(regs, rs1, rs2),
        Instruction::BLTU { rs2, rs1, .. } => lemma_frame_latch2(regs, rs1, rs2),
        Instruction::BGEU { rs2, rs1, .. } => lemma_frame_latch2(regs, rs1, rs2),
        Instruction::SB { rs2, rs1, .. } => lemma_frame_latch2(regs, rs1, rs2),
        Instruction::SH { rs2, rs1, .. } => lemma_frame_latch2(regs, rs1, rs2),
        Instruction::SW { rs2, rs1, .. } => lemma_frame_latch2(regs, rs1, rs2),
        _ => {},
    }
}

/// Case of `lemma_exec_mutates_only_prescribed` for the loads and the
/// register-immediate ALU instructions: one source read, one commit.
proof fn lemma_frame_load_alu_imm(
    pre: DRVSim,
    post: DRVSim,
    inst: Instruction,
    r: Result<InstLog, SimError>,
)
    requires
        pre.wf(),
        exec_rel(pre, post, inst, r),
        r is Ok,
        inst is LB || inst is LH || inst is LW || inst is LBU || inst is LHU || inst is ADDI
            || inst is SLTI || inst is SLTIU || inst is XORI || inst is ORI || inst is ANDI
            || inst is SLLI || inst is SRLI || inst is SRAI,
    ensures
        mutates_only_prescribed(pre, post, inst),
{
    let regs = pre.core_reg@;
    match inst {
        Instruction::LB { rs1, rd, .. } => lemma_frame_latch1_store(regs, rs1, rd),
        Instruction::LH { rs1, rd, .. } => lemma_frame_latch1_store(regs, rs1, rd),
        Instruction::LW { rs1, rd, .. } => lemma_frame_latch1_store(regs, rs1, rd),
        Instruction::LBU { rs1, rd, .. } => lemma_frame_latch1_store(regs, rs1, rd),
        Instruction::LHU { rs1, rd, .. } => lemma_frame_latch1_store(regs, rs1, rd),
        Instruction::ADDI { rs1, rd, .. } => lemma_frame_latch1_store(regs, rs1, rd),
        Instruction::SLTI { rs1, rd, .. } => lemma_frame_latch1_store(regs, rs1, rd),
        Instruction::SLTIU { rs1, rd, .. } => lemma_frame_latch1_store(regs, rs1, rd),
        Instruction::XORI { rs1, rd, .. } => lemma_frame_latch1_store(regs, rs1, rd),
        Instruction::ORI { rs1, rd, .. } => lemma_frame_latch1_store(regs, rs1, rd),
        Instruction::ANDI { rs1, rd, .. } => lemma_frame_latch1_store(regs, rs1, rd),
        Instruction::SLLI { rs1, rd, .. } => lemma_frame_latch1_store(regs, rs1, rd),
        Instruction::SRLI { rs1, rd, .. } => lemma_frame_latch1_store(regs, rs1, rd),
        Instruction::SRAI { rs1, rd, .. } => lemma_frame_latch1_store(regs, rs1, rd),
        _ => {},
    }
}

/// Case of `lemma_exec_mutates_only_prescribed` for the
/// register-register ALU instructions: two source reads, one commit.
proof fn lemma_frame_alu_rr(
    pre: DRVSim,
    post: DRVSim,
    inst: Instruction,
    r: Result<InstLog, SimError>,
)
    requires
        pre.wf(),
        exec_rel(pre, post, inst, r),
        r is Ok,
        inst is ADD || inst is SUB || inst is SLL || inst is SLT || inst is SLTU || inst is XOR
            || inst is SRL || inst is SRA || inst is OR || inst is AND,
    ensures
        mutates_only_prescribed(pre, post, inst),
{
    let regs = pre.core_reg@;
    match inst {
        Instruction::ADD { rs2, rs1, rd } => lemma_frame_latch2_store(regs, rs1, rs2, rd),
        Instruction::SUB { rs2, rs1, rd } => lemma_frame_latch2_store(regs, rs1, rs2, rd),
        Instruction::SLL { rs2, rs1, rd } => lemma_frame_latch2_store(regs, rs1, rs2, rd),
        Instruction::SLT { rs2, rs1, rd } => lemma_frame_latch2_store(regs, rs1, rs2, rd),
        Instruction::SLTU { rs2, rs1, rd } => lemma_frame_latch2_store(regs, rs1, rs2, rd),
        Instruction::XOR { rs2, rs1, rd } => lemma_frame_latch2_store(regs, rs1, rs2, rd),
        Instruction::SRL { rs2, rs1, rd } => lemma_frame_latch2_store(regs, rs1, rs2, rd),
        Instruction::SRA { rs2, rs1, rd } => lemma_frame_latch2_store(regs, rs1, rs2, rd),
        Instruction::OR { rs2, rs1, rd } => lemma_frame_latch2_store(regs, rs1, rs2, rd),
        Instruction::AND { rs2, rs1, rd } => lemma_frame_latch2_store(regs, rs1, rs2, rd),
        _ => {},
    }
}

/// Law: a successful step mutates exactly the state its instruction
/// prescribes. Memory is untouched unless the instruction is a store
/// (whose byte-exact effect `rel_store` states); a register entry that
/// held a value changes only if it is the instruction's destination and
/// that destination is not `X0`; any other changed entry was absent and
/// was merely initialized by a first read.
pub proof fn lemma_exec_mutates_only_prescribed(
    pre: DRVSim,
    post: DRVSim,
    inst: Instruction,
    r: Result<InstLog, SimError>,
)
    requires
        pre.wf(),
        exec_rel(pre, post, inst, r),
        r is Ok,
    ensures
        mutates_only_prescribed(pre, post, inst),
{
    match inst {
        Instruction::LUI { .. } => lemma_frame_upper_jump(pre, post, inst, r),
        Instruction::AUIPC { .. } => lemma_frame_upper_jump(pre, post, inst, r),
        Instruction::JAL { .. } => lemma_frame_upper_jump(pre, post, inst, r),
        Instruction::JALR { .. } => lemma_frame_upper_jump(pre, post, inst, r),
        Instruction::BEQ { .. } => lemma_frame_branch_store(pre, post, inst, r),
        Instruction::BNE { .. } => lemma_frame_branch_store(pre, post, inst, r),
        Instruction::BLT { .. } => lemma_frame_branch_store(pre, post, inst, r),
        Instruction::BGE { .. } => lemma_frame_branch_store(pre, post, inst, r),
        Instruction::BLTU { .. } => lemma_frame_branch_store(pre, post, inst, r),
        Instruction::BGEU { .. } => lemma_frame_branch_store(pre, post, inst, r),
        Instruction::SB { .. } => lemma_frame_branch_store(pre, post, inst, r),
        Instruction::SH { .. } => lemma_frame_branch_store(pre, post, inst, r),
        Instruction::SW { .. } => lemma_frame_branch_store(pre, post, inst, r),
        Instruction::LB { .. } => lemma_frame_load_alu_imm(pre, post, inst, r),
        Instruction::LH { .. } => lemma_frame_load_alu_imm(pre, post, inst, r),
        Instruction::LW { .. } => lemma_frame_load_alu_imm(pre, post, inst, r),
        Instruction::LBU { .. } => lemma_frame_load_alu_imm(pre, post, inst, r),
        Instruction::LHU { .. } => lemma_frame_load_alu_imm(pre, post, inst, r),
        Instruction::ADDI { .. } => lemma_frame_load_alu_imm(pre, post, inst, r),
        Instruction::SLTI { .. } => lemma_frame_load_alu_imm(pre, post, inst, r),
        Instruction::SLTIU { .. } => lemma_frame_load_alu_imm(pre, post, inst, r),
        Instruction::XORI { .. } => lemma_frame_load_alu_imm(pre, post, inst, r),
        Instruction::ORI { .. } => lemma_frame_load_alu_imm(pre, post, inst, r),
        Instruction::ANDI { .. } => lemma_frame_load_alu_imm(pre, post, inst, r),
        Instruction::SLLI { .. } => lemma_frame_load_alu_imm(pre, post, inst, r),
        Instruction::SRLI { .. } => lemma_frame_load_alu_imm(pre, post, inst, r),
        Instruction::SRAI { .. } => lemma_frame_load_alu_imm(pre, post, inst, r),
        Instruction::ADD { .. } => lemma_frame_alu_rr(pre, post, inst, r),
        Instruction::SUB { .. } => lemma_frame_alu_rr(pre, post, inst, r),
        Instruction::SLL { .. } => lemma_frame_alu_rr(pre, post, inst, r),
        Instruction::SLT { .. } => lemma_frame_alu_rr(pre, post, inst, r),
        Instruction::SLTU { .. } => lemma_frame_alu_rr(pre, post, inst, r),
        Instruction::XOR { .. } => lemma_frame_alu_rr(pre, post, inst, r),
        Instruction::SRL { .. } => lemma_frame_alu_rr(pre, post, inst, r),
        Instruction::SRA { .. } => lemma_frame_alu_rr(pre, post, inst, r),
        Instruction::OR { .. } => lemma_frame_alu_rr(pre, post, inst, r),
        Instruction::AND { .. } => lemma_frame_alu_rr(pre, post, inst, r),
        Instruction::FENCE { .. } => {},
        Instruction::ECALL => {},
        Instruction::EBREAK => {},
        Instruction::DRET => {},
        Instruction::MRET => {},
    }
}

/// Case of `lemma_exec_log_wf` for the instructions that trace only
/// register values.
#[verifier::rlimit(30)]
proof fn lemma_exec_log_wf_reg_only(
    pre: DRVSim,
    post: DRVSim,
    inst: Instruction,
    r: Result<InstLog, SimError>,
)
    requires
        exec_rel(pre, post, inst, r),
        r matches Ok(log),
        !(inst is LB || inst is LH || inst is LW || inst is LBU || inst is LHU || inst is SB
            || inst is SH || inst is SW),
    ensures
        r matches Ok(log) ==> crate::inst_log::log_wf(log),
{
}

/// Case of `lemma_exec_log_wf` for the loads and stores, whose log
/// records carry one memory value of the instruction's width.
#[verifier::rlimit(30)]
proof fn lemma_exec_log_wf_mem(
    pre: DRVSim,
    post: DRVSim,
    inst: Instruction,
    r: Result<InstLog, SimError>,
)
    requires
        exec_rel(pre, post, inst, r),
        r matches Ok(log),
        inst is LB || inst is LH || inst is LW || inst is LBU || inst is LHU || inst is SB
            || inst is SH || inst is SW,
    ensures
        r matches Ok(log) ==> crate::inst_log::log_wf(log),
{
}

/// Law: every log record a successful execution emits can be rendered —
/// each traced memory value is 1, 2 or 4 bytes wide.
pub proof fn lemma_exec_log_wf(
    pre: DRVSim,
    post: DRVSim,
    inst: Instruction,
    r: Result<InstLog, SimError>,
)
    requires
        exec_rel(pre, post, inst, r),
        r matches Ok(log),
    ensures
        r matches Ok(log) ==> crate::inst_log::log_wf(log),
{
    if inst is LB || inst is LH || inst is LW || inst is LBU || inst is LHU || inst is SB
        || inst is SH || inst is SW {
        lemma_exec_log_wf_mem(pre, post, inst, r);
    } else {
        lemma_exec_log_wf_reg_only(pre, post, inst, r);
    }
}

/// A decoded instruction carries fields the decoder can produce: shift
/// amounts are five bits.
pub open spec fn inst_wf(i: Instruction) -> bool {
    match i {
        Instruction::SLLI { shamt, .. } => shamt < 32,
        Instruction::SRLI { shamt, .. } => shamt < 32,
        Instruction::SRAI { shamt, .. } => shamt < 32,
        _ => true,
    }
}

/// Whatever word the decoder accepts, the instruction it produces is
/// well-formed.
pub proof fn lemma_decode_wf(w: u32)
    ensures
        spec_decode(w) is Ok ==> inst_wf(spec_decode(w)->Ok_0),
{
    assert((w >> 20) & 0x1F < 32) by (bit_vector);
}

/// After a successful fetch of the word `w`, the step decodes it and
/// executes the decoded instruction; a decode fault leaves the state
/// untouched.
pub open spec fn step_fetched(
    pre: DRVSim,
    post: DRVSim,
    w: u32,
    r: Result<InstLog, SimError>,
) -> bool {
    match spec_decode(w) {
        Err(e) => r == Err::<InstLog, SimError>(SimError::Decode(e)) && state_eq(pre, post),
        Ok(inst) => exec_rel(pre, post, inst, r),
    }
}

/// What one step does: fetch a word at the program counter, decode it,
/// execute it. A fetch fault reports the read error and leaves the state
/// untouched; otherwise some word the pre-state memory allows was
/// fetched, and the step behaves as that word prescribes.
pub open spec fn step_rel(pre: DRVSim, post: DRVSim, r: Result<InstLog, SimError>) -> bool {
    if !pre.read_ok_spec(pre.pc, 4) {
        r == Err::<InstLog, SimError>(pre.read_err_spec(pre.pc, 4)) && state_eq(pre, post)
    } else {
        exists|w: u32|
            #[trigger] pre.read_consistent_spec(pre.pc, 4, w) && step_fetched(pre, post, w, r)
    }
}

/// Signed less-than, computed without reinterpreting the words: two
/// words of equal sign compare as unsigned, otherwise the negative one
/// is smaller.
fn slt_exec(a: u32, b: u32) -> (r: bool)
    ensures
        r == signed_lt(a, b),
{
    let a_neg = a >= 0x80000000;
    let b_neg = b >= 0x80000000;
    if a_neg != b_neg {
        a_neg
    } else {
        a < b
    }
}

/// Arithmetic right shift.
fn sra_exec(a: u32, s: u32) -> (r: u32)
    requires
        s < 32,
    ensures
        r == sra32(a, s),
{
    if a >= 0x80000000 {
        (a >> s) | (!(0xFFFFFFFFu32 >> s))
    } else {
        a >> s
    }
}

/// Masking with 0xFF, 0xFFFF or 0x1F bounds the result.
proof fn lemma_mask_bounds(x: u32)
    by (bit_vector)
    ensures
        x & 0xFF < 0x100,
        x & 0xFFFF < 0x10000,
        x & 0x1F < 32,
{
}

/// A byte sign-extended to 32 bits.
fn sext8_exec(v: u32) -> (r: u32)
    requires
        v <= 0xFF,
    ensures
        r == sext8(v),
{
    if v >= 0x80 {
        v | 0xFFFFFF00
    } else {
        v
    }
}

/// A half-word sign-extended to 32 bits.
fn sext16_exec(v: u32) -> (r: u32)
    requires
        v <= 0xFFFF,
    ensures
        r == sext16(v),
{
    if v >= 0x8000 {
        v | 0xFFFF0000
    } else {
        v
    }
}

/// A register read can only fail under the `Error` policy, which latches
/// nothing: when a second read fails, the first one changed nothing and
/// the second was already unreadable in the pre-state.
proof fn lemma_second_read_err(
    regs: Seq<Option<u32>>,
    init: ValueInit,
    rs1: Register,
    v1: u32,
    rs2: Register,
)
    requires
        regs.len() == 18,
        reg_read_ok(regs, init, rs1),
        !reg_read_ok(reg_latch(regs, rs1, v1), init, rs2),
    ensures
        reg_latch(regs, rs1, v1) == regs,
        !reg_read_ok(regs, init, rs2),
{
    assert(init is Error);
    if !(rs1 == Register::X0 || regs[crate::inst::reg_id(rs1)] is Some) {
        assert(false);
    }
}

/// Law: the program counter after a step is determined by the log — a
/// step that did not branch advanced it by exactly four (mod 2^32), a
/// step that branched set it to the recorded target, and a faulting step
/// left it unchanged.
pub proof fn lemma_exec_rel_pc(
    pre: DRVSim,
    post: DRVSim,
    inst: Instruction,
    r: Result<InstLog, SimError>,
)
    requires
        exec_rel(pre, post, inst, r),
    ensures
        r matches Ok(log) ==> (log.branching is None ==> post.pc == pre.pc.wrapping_add(4)),
        r matches Ok(log) ==> (log.branching matches Some(t) ==> post.pc == t),
        r is Err ==> post.pc == pre.pc,
{
}

impl DRVSim {
    /// Execute a decoded LUI, AUIPC, JAL or JALR.
    fn exec_upper_jump(&mut self, inst: Instruction) -> (r: Result<InstLog, SimError>)
        requires
            old(self).wf(),
            inst is LUI || inst is AUIPC || inst is JAL || inst is JALR,
        ensures
            final(self).wf(),
            exec_rel(*old(self), *final(self), inst, r),
    {
        let pc0 = self.pc;
        match inst {
            Instruction::LUI { imm, rd } => {
                let commit = self.write_register(rd, imm);
                self.pc = pc0.wrapping_add(4);
                let mut commits: Vec<Value> = Vec::new();
                commits.push(commit);
                Ok(
                    InstLog {
                        pc: pc0,
                        inst,
                        handling_trap: false,
                        branching: None,
                        debug_mode: false,
                        input_values: Vec::new(),
                        commit_values: commits,
                    },
                )
            },
            Instruction::AUIPC { imm, rd } => {
                let res = pc0.wrapping_add(imm);
                let commit = self.write_register(rd, res);
                self.pc = pc0.wrapping_add(4);
                let mut commits: Vec<Value> = Vec::new();
                commits.push(commit);
                Ok(
                    InstLog {
                        pc: pc0,
                        inst,
                        handling_trap: false,
                        branching: None,
                        debug_mode: false,
                        input_values: Vec::new(),
                        commit_values: commits,
                    },
                )
            },
            Instruction::JAL { imm, rd } => {
                let target = pc0.wrapping_add(imm);
                self.pc = target;
                let commit = self.write_register(rd, pc0.wrapping_add(4));
                let mut commits: Vec<Value> = Vec::new();
                commits.push(commit);
                Ok(
                    InstLog {
                        pc: pc0,
                        inst,
                        handling_trap: false,
                        branching: Some(target),
                        debug_mode: false,
                        input_values: Vec::new(),
                        commit_values: commits,
                    },
                )
            },
            Instruction::JALR { imm, rs1, rd } => {
                let inp1 = match self.read_register(rs1) {
                    Ok(v) => v,
                    Err(e) => return Err(e),
                };
                let target = inp1.val.wrapping_add(imm) & (!1u32);
                self.pc = target;
                let commit = self.write_register(rd, pc0.wrapping_add(4));
                let mut inputs: Vec<Value> = Vec::new();
                inputs.push(inp1);
                let mut commits: Vec<Value> = Vec::new();
                commits.push(commit);
                Ok(
                    InstLog {
                        pc: pc0,
                        inst,
                        handling_trap: false,
                        branching: Some(target),
                        debug_mode: false,
                        input_values: inputs,
                        commit_values: commits,
                    },
                )
            },
            _ => Err(SimError::NotImplemented(inst)),
        }
    }

    /// Execute a decoded conditional branch.
    fn exec_branch_inst(&mut self, inst: Instruction) -> (r: Result<InstLog, SimError>)
        requires
            old(self).wf(),
            inst is BEQ || inst is BNE || inst is BLT || inst is BGE || inst is BLTU
                || inst is BGEU,
        ensures
            final(self).wf(),
            exec_rel(*old(self), *final(self), inst, r),
    {
        let pc0 = self.pc;
        let (imm, rs2, rs1) = match inst {
            Instruction::BEQ { imm, rs2, rs1 } => (imm, rs2, rs1),
            Instruction::BNE { imm, rs2, rs1 } => (imm, rs2, rs1),
            Instruction::BLT { imm, rs2, rs1 } => (imm, rs2, rs1),
            Instruction::BGE { imm, rs2, rs1 } => (imm, rs2, rs1),
            Instruction::BLTU { imm, rs2, rs1 } => (imm, rs2, rs1),
            Instruction::BGEU { imm, rs2, rs1 } => (imm, rs2, rs1),
            _ => return Err(SimError::NotImplemented(inst)),
        };
        let inp1 = match self.read_register(rs1) {
            Ok(v) => v,
            Err(e) => return Err(e),
        };
        let inp2 = match self.read_register(rs2) {
            Ok(v) => v,
            Err(e) => {
                proof {
                    lemma_second_read_err(
                        old(self).core_reg@,
                        old(self).config.reg_init,
                        rs1,
                        inp1.val,
                        rs2,
                    );
                }
                return Err(e);
            },
        };
        let taken = match inst {
            Instruction::BEQ { .. } => inp1.val == inp2.val,
            Instruction::BNE { .. } => inp1.val != inp2.val,
            Instruction::BLT { .. } => slt_exec(inp1.val, inp2.val),
            Instruction::BGE { .. } => !slt_exec(inp1.val, inp2.val),
            Instruction::BLTU { .. } => inp1.val < inp2.val,
            _ => inp1.val >= inp2.val,
        };
        let branching = if taken {
            let target = pc0.wrapping_add(imm);
            self.pc = target;
            Some(target)
        } else {
            self.pc = pc0.wrapping_add(4);
            None
        };
        let mut inputs: Vec<Value> = Vec::new();
        inputs.push(inp1);
        inputs.push(inp2);
        Ok(
            InstLog {
                pc: pc0,
                inst,
                handling_trap: false,
                branching,
                debug_mode: false,
                input_values: inputs,
                commit_values: Vec::new(),
            },
        )
    }

    /// Execute a decoded load.
    fn exec_load(&mut self, inst: Instruction) -> (r: Result<InstLog, SimError>)
        requires
            old(self).wf(),
            inst is LB || inst is LH || inst is LW || inst is LBU || inst is LHU,
        ensures
            final(self).wf(),
            exec_rel(*old(self), *final(self), inst, r),
    {
        let pc0 = self.pc;
        let (imm, rs1, rd) = match inst {
            Instruction::LB { imm, rs1, rd } => (imm, rs1, rd),
            Instruction::LH { imm, rs1, rd } => (imm, rs1, rd),
            Instruction::LW { imm, rs1, rd } => (imm, rs1, rd),
            Instruction::LBU { imm, rs1, rd } => (imm, rs1, rd),
            Instruction::LHU { imm, rs1, rd } => (imm, rs1, rd),
            _ => return Err(SimError::NotImplemented(inst)),
        };
        let inp1 = match self.read_register(rs1) {
            Ok(v) => v,
            Err(e) => return Err(e),
        };
        let adr = inp1.val.wrapping_add(imm);
        let mem_res = match inst {
            Instruction::LB { .. } => self.read_b(adr),
            Instruction::LBU { .. } => self.read_b(adr),
            Instruction::LH { .. } => self.read_h(adr),
            Instruction::LHU { .. } => self.read_h(adr),
            _ => self.read_w(adr),
        };
        let mem_val = match mem_res {
            Ok(v) => v,
            Err(e) => {
                proof {
                    assert(reg_read_consistent(
                        old(self).core_reg@,
                        rinit(*old(self)),
                        rs1,
                        inp1.val,
                    ));
                }
                return Err(e);
            },
        };
        let res = match inst {
            Instruction::LB { .. } => sext8_exec(mem_val.val),
            Instruction::LH { .. } => sext16_exec(mem_val.val),
            _ => mem_val.val,
        };
        let commit = self.write_register(rd, res);
        self.pc = pc0.wrapping_add(4);
        let mut inputs: Vec<Value> = Vec::new();
        inputs.push(inp1);
        inputs.push(mem_val);
        let mut commits: Vec<Value> = Vec::new();
        commits.push(commit);
        Ok(
            InstLog {
                pc: pc0,
                inst,
                handling_trap: false,
                branching: None,
                debug_mode: false,
                input_values: inputs,
                commit_values: commits,
            },
        )
    }

    /// Execute a decoded store.
    fn exec_store(&mut self, inst: Instruction) -> (r: Result<InstLog, SimError>)
        requires
            old(self).wf(),
            inst is SB || inst is SH || inst is SW,
        ensures
            final(self).wf(),
            exec_rel(*old(self), *final(self), inst, r),
    {
        let pc0 = self.pc;
        let (imm, rs2, rs1) = match inst {
            Instruction::SB { imm, rs2, rs1 } => (imm, rs2, rs1),
            Instruction::SH { imm, rs2, rs1 } => (imm, rs2, rs1),
            Instruction::SW { imm, rs2, rs1 } => (imm, rs2, rs1),
            _ => return Err(SimError::NotImplemented(inst)),
        };
        let inp1 = match self.read_register(rs1) {
            Ok(v) => v,
            Err(e) => return Err(e),
        };
        let inp2 = match self.read_register(rs2) {
            Ok(v) => v,
            Err(e) => {
                proof {
                    lemma_second_read_err(
                        old(self).core_reg@,
                        old(self).config.reg_init,
                        rs1,
                        inp1.val,
                        rs2,
                    );
                }
                return Err(e);
            },
        };
        let adr = inp1.val.wrapping_add(imm);
        proof {
            lemma_mask_bounds(inp2.val);
        }
        let commit_res = match inst {
            Instruction::SB { .. } => self.write_b(adr, (inp2.val & 0xFF) as u8),
            Instruction::SH { .. } => self.write_h(adr, (inp2.val & 0xFFFF) as u16),
            _ => self.write_w(adr, inp2.val),
        };
        let commit = match commit_res {
            Ok(v) => v,
            Err(e) => {
                proof {
                    assert(reg_read_consistent(
                        old(self).core_reg@,
                        rinit(*old(self)),
                        rs1,
                        inp1.val,
                    ));
                    assert(reg_read_consistent(
                        reg_latch(old(self).core_reg@, rs1, inp1.val),
                        rinit(*old(self)),
                        rs2,
                        inp2.val,
                    ));
                }
                return Err(e);
            },
        };
        self.pc = pc0.wrapping_add(4);
        let mut inputs: Vec<Value> = Vec::new();
        inputs.push(inp1);
        inputs.push(inp2);
        let mut commits: Vec<Value> = Vec::new();
        commits.push(commit);
        Ok(
            InstLog {
                pc: pc0,
                inst,
                handling_trap: false,
                branching: None,
                debug_mode: false,
                input_values: inputs,
                commit_values: commits,
            },
        )
    }

    /// Execute a decoded register-immediate ALU instruction.
    fn exec_alu_imm(&mut self, inst: Instruction) -> (r: Result<InstLog, SimError>)
        requires
            old(self).wf(),
            inst_wf(inst),
            inst is ADDI || inst is SLTI || inst is SLTIU || inst is XORI || inst is ORI
                || inst is ANDI || inst is SLLI || inst is SRLI || inst is SRAI,
        ensures
            final(self).wf(),
            exec_rel(*old(self), *final(self), inst, r),
    {
        let pc0 = self.pc;
        let (rs1, rd) = match inst {
            Instruction::ADDI { rs1, rd, .. } => (rs1, rd),
            Instruction::SLTI { rs1, rd, .. } => (rs1, rd),
            Instruction::SLTIU { rs1, rd, .. } => (rs1, rd),
            Instruction::XORI { rs1, rd, .. } => (rs1, rd),
            Instruction::ORI { rs1, rd, .. } => (rs1, rd),
            Instruction::ANDI { rs1, rd, .. } => (rs1, rd),
            Instruction::SLLI { rs1, rd, .. } => (rs1, rd),
            Instruction::SRLI { rs1, rd, .. } => (rs1, rd),
            Instruction::SRAI { rs1, rd, .. } => (rs1, rd),
            _ => return Err(SimError::NotImplemented(inst)),
        };
        let inp1 = match self.read_register(rs1) {
            Ok(v) => v,
            Err(e) => return Err(e),
        };
        let res = match inst {
            Instruction::ADDI { imm, .. } => inp1.val.wrapping_add(imm),
            Instruction::SLTI { imm, .. } => if slt_exec(inp1.val, imm) {
                1
            } else {
                0
            },
            Instruction::SLTIU { imm, .. } => if inp1.val < imm {
                1
            } else {
                0
            },
            Instruction::XORI { imm, .. } => inp1.val ^ imm,
            Instruction::ORI { imm, .. } => inp1.val | imm,
            Instruction::ANDI { imm, .. } => inp1.val & imm,
            Instruction::SLLI { shamt, .. } => inp1.val << shamt,
            Instruction::SRLI { shamt, .. } => inp1.val >> shamt,
            Instruction::SRAI { shamt, .. } => sra_exec(inp1.val, shamt),
            _ => 0,
        };
        let commit = self.write_register(rd, res);
        self.pc = pc0.wrapping_add(4);
        let mut inputs: Vec<Value> = Vec::new();
        inputs.push(inp1);
        let mut commits: Vec<Value> = Vec::new();
        commits.push(commit);
        Ok(
            InstLog {
                pc: pc0,
                inst,
                handling_trap: false,
                branching: None,
                debug_mode: false,
                input_values: inputs,
                commit_values: commits,
            },
        )
    }

    /// Execute a decoded register-register ALU instruction.
    fn exec_alu_rr(&mut self, inst: Instruction) -> (r: Result<InstLog, SimError>)
        requires
            old(self).wf(),
            inst is ADD || inst is SUB || inst is SLL || inst is SLT || inst is SLTU
                || inst is XOR || inst is SRL || inst is SRA || inst is OR || inst is AND,
        ensures
            final(self).wf(),
            exec_rel(*old(self), *final(self), inst, r),
    {
        let pc0 = self.pc;
        let (rs2, rs1, rd) = match inst {
            Instruction::ADD { rs2, rs1, rd } => (rs2, rs1, rd),
            Instruction::SUB { rs2, rs1, rd } => (rs2, rs1, rd),
            Instruction::SLL { rs2, rs1, rd } => (rs2, rs1, rd),
            Instruction::SLT { rs2, rs1, rd } => (rs2, rs1, rd),
            Instruction::SLTU { rs2, rs1, rd } => (rs2, rs1, rd),
            Instruction::XOR { rs2, rs1, rd } => (rs2, rs1, rd),
            Instruction::SRL { rs2, rs1, rd } => (rs2, rs1, rd),
            Instruction::SRA { rs2, rs1, rd } => (rs2, rs1, rd),
            Instruction::OR { rs2, rs1, rd } => (rs2, rs1, rd),
            Instruction::AND { rs2, rs1, rd } => (rs2, rs1, rd),
            _ => return Err(SimError::NotImplemented(inst)),
        };
        let inp1 = match self.read_register(rs1) {
            Ok(v) => v,
            Err(e) => return Err(e),
        };
        let inp2 = match self.read_register(rs2) {
            Ok(v) => v,
            Err(e) => {
                proof {
                    lemma_second_read_err(
                        old(self).core_reg@,
                        old(self).config.reg_init,
                        rs1,
                        inp1.val,
                        rs2,
                    );
                }
                return Err(e);
            },
        };
        proof {
            lemma_mask_bounds(inp2.val);
        }
        let res = match inst {
            Instruction::ADD { .. } => inp1.val.wrapping_add(inp2.val),
            Instruction::SUB { .. } => inp1.val.wrapping_sub(inp2.val),
            Instruction::SLL { .. } => inp1.val << (inp2.val & 0x1F),
            Instruction::SLT { .. } => if slt_exec(inp1.val, inp2.val) {
                1
            } else {
                0
            },
            Instruction::SLTU { .. } => if inp1.val < inp2.val {
                1
            } else {
                0
            },
            Instruction::XOR { .. } => inp1.val ^ inp2.val,
            Instruction::SRL { .. } => inp1.val >> (inp2.val & 0x1F),
            Instruction::SRA { .. } => sra_exec(inp1.val, inp2.val & 0x1F),
            Instruction::OR { .. } => inp1.val | inp2.val,
            _ => inp1.val & inp2.val,
        };
        let commit = self.write_register(rd, res);
        self.pc = pc0.wrapping_add(4);
        let mut inputs: Vec<Value> = Vec::new();
        inputs.push(inp1);
        inputs.push(inp2);
        let mut commits: Vec<Value> = Vec::new();
        commits.push(commit);
        Ok(
            InstLog {
                pc: pc0,
                inst,
                handling_trap: false,
                branching: None,
                debug_mode: false,
                input_values: inputs,
                commit_values: commits,
            },
        )
    }

    /// Execute a decoded instruction against the current state.
    fn exec_inst(&mut self, inst: Instruction) -> (r: Result<InstLog, SimError>)
        requires
            old(self).wf(),
            inst_wf(inst),
        ensures
            final(self).wf(),
            exec_rel(*old(self), *final(self), inst, r),
    {
        match inst {
            Instruction::LUI { .. } => self.exec_upper_jump(inst),
            Instruction::AUIPC { .. } => self.exec_upper_jump(inst),
            Instruction::JAL { .. } => self.exec_upper_jump(inst),
            Instruction::JALR { .. } => self.exec_upper_jump(inst),
            Instruction::BEQ { .. } => self.exec_branch_inst(inst),
            Instruction::BNE { .. } => self.exec_branch_inst(inst),
            Instruction::BLT { .. } => self.exec_branch_inst(inst),
            Instruction::BGE { .. } => self.exec_branch_inst(inst),
            Instruction::BLTU { .. } => self.exec_branch_inst(inst),
            Instruction::BGEU { .. } => self.exec_branch_inst(inst),
            Instruction::LB { .. } => self.exec_load(inst),
            Instruction::LH { .. } => self.exec_load(inst),
            Instruction::LW { .. } => self.exec_load(inst),
            Instruction::LBU { .. } => self.exec_load(inst),
            Instruction::LHU { .. } => self.exec_load(inst),
            Instruction::SB { .. } => self.exec_store(inst),
            Instruction::SH { .. } => self.exec_store(inst),
            Instruction::SW { .. } => self.exec_store(inst),
            Instruction::ADDI { .. } => self.exec_alu_imm(inst),
            Instruction::SLTI { .. } => self.exec_alu_imm(inst),
            Instruction::SLTIU { .. } => self.exec_alu_imm(inst),
            Instruction::XORI { .. } => self.exec_alu_imm(inst),
            Instruction::ORI { .. } => self.exec_alu_imm(inst),
            Instruction::ANDI { .. } => self.exec_alu_imm(inst),
            Instruction::SLLI { .. } => self.exec_alu_imm(inst),
            Instruction::SRLI { .. } => self.exec_alu_imm(inst),
            Instruction::SRAI { .. } => self.exec_alu_imm(inst),
            Instruction::ADD { .. } => self.exec_alu_rr(inst),
            Instruction::SUB { .. } => self.exec_alu_rr(inst),
            Instruction::SLL { .. } => self.exec_alu_rr(inst),
            Instruction::SLT { .. } => self.exec_alu_rr(inst),
            Instruction::SLTU { .. } => self.exec_alu_rr(inst),
            Instruction::XOR { .. } => self.exec_alu_rr(inst),
            Instruction::SRL { .. } => self.exec_alu_rr(inst),
            Instruction::SRA { .. } => self.exec_alu_rr(inst),
            Instruction::OR { .. } => self.exec_alu_rr(inst),
            Instruction::AND { .. } => self.exec_alu_rr(inst),
            Instruction::FENCE { .. } => {
                let pc0 = self.pc;
                self.pc = pc0.wrapping_add(4);
                Ok(
                    InstLog {
                        pc: pc0,
                        inst,
                        handling_trap: false,
                        branching: None,
                        debug_mode: false,
                        input_values: Vec::new(),
                        commit_values: Vec::new(),
                    },
                )
            },
            Instruction::ECALL => Err(SimError::NotImplemented(inst)),
            Instruction::EBREAK => Err(SimError::NotImplemented(inst)),
            Instruction::DRET => Err(SimError::NotImplemented(inst)),
            Instruction::MRET => Err(SimError::NotImplemented(inst)),
        }
    }

    /// Execute exactly one instruction: fetch the word at the program
    /// counter, decode it, and execute it. On success the log record
    /// reports every value read and committed; on a fault the program
    /// counter is not advanced.
    pub fn step(&mut self) -> (r: Result<InstLog, SimError>)
        requires
            old(self).wf(),
        ensures
            final(self).wf(),
            step_rel(*old(self), *final(self), r),
            r matches Ok(log) ==> (log.branching is None ==> final(self).pc == old(
                self,
            ).pc.wrapping_add(4)),
            r matches Ok(log) ==> (log.branching matches Some(t) ==> final(self).pc == t),
            r is Err ==> final(self).pc == old(self).pc,
    {
        let pc0 = self.pc;
        let fetched = match self.read_w(pc0) {
            Ok(v) => v,
            Err(e) => return Err(e),
        };
        let w = fetched.val;
        let inst = match decode_inst(w) {
            Ok(i) => i,
            Err(e) => {
                proof {
                    assert(old(self).read_consistent_spec(old(self).pc, 4, w));
                }
                return Err(SimError::Decode(e));
            },
        };
        proof {
            lemma_decode_wf(w);
        }
        let r = self.exec_inst(inst);
        proof {
            assert(old(self).read_consistent_spec(old(self).pc, 4, w));
            lemma_exec_rel_pc(*old(self), *self, inst, r);
        }
        r
    }
}

} // verus!
