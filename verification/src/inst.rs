//! Register identifiers and decoded instruction values.

use vstd::prelude::*;

use crate::textfmt::{
    push_dec_min, push_hex_min, push_str_chars, spec_dec_min, spec_hex_min,
};

verus! {

/// Identifier of a core register: the sixteen general-purpose registers
/// `X0`..`X15` plus the two auxiliary program-counter registers `Xmpc` and
/// `Xdpc`. Encoded register fields `0..=17` map onto these in order; any
/// larger field value is a decode error.
#[derive(Debug, PartialEq, Eq, Structural, Clone, Copy)]
pub enum Register {
    X0,
    X1,
    X2,
    X3,
    X4,
    X5,
    X6,
    X7,
    X8,
    X9,
    X10,
    X11,
    X12,
    X13,
    X14,
    X15,
    Xmpc,
    Xdpc,
}

/// The numeric identifier of a register, `0..=17`.
pub open spec fn reg_id(r: Register) -> int {
    match r {
        Register::X0 => 0,
        Register::X1 => 1,
        Register::X2 => 2,
        Register::X3 => 3,
        Register::X4 => 4,
        Register::X5 => 5,
        Register::X6 => 6,
        Register::X7 => 7,
        Register::X8 => 8,
        Register::X9 => 9,
        Register::X10 => 10,
        Register::X11 => 11,
        Register::X12 => 12,
        Register::X13 => 13,
        Register::X14 => 14,
        Register::X15 => 15,
        Register::Xmpc => 16,
        Register::Xdpc => 17,
    }
}

/// The register with numeric identifier `n`; meaningful for `n < 18` only.
pub open spec fn spec_reg(n: u32) -> Register {
    if n == 0 {
        Register::X0
    } else if n == 1 {
        Register::X1
    } else if n == 2 {
        Register::X2
    } else if n == 3 {
        Register::X3
    } else if n == 4 {
        Register::X4
    } else if n == 5 {
        Register::X5
    } else if n == 6 {
        Register::X6
    } else if n == 7 {
        Register::X7
    } else if n == 8 {
        Register::X8
    } else if n == 9 {
        Register::X9
    } else if n == 10 {
        Register::X10
    } else if n == 11 {
        Register::X11
    } else if n == 12 {
        Register::X12
    } else if n == 13 {
        Register::X13
    } else if n == 14 {
        Register::X14
    } else if n == 15 {
        Register::X15
    } else if n == 16 {
        Register::Xmpc
    } else {
        Register::Xdpc
    }
}

impl Register {
    /// The numeric identifier of this register as an index into the
    /// register file.
    pub fn index(&self) -> (r: usize)
        ensures
            r == reg_id(*self),
    {
        match *self {
            Register::X0 => 0,
            Register::X1 => 1,
            Register::X2 => 2,
            Register::X3 => 3,
            Register::X4 => 4,
            Register::X5 => 5,
            Register::X6 => 6,
            Register::X7 => 7,
            Register::X8 => 8,
            Register::X9 => 9,
            Register::X10 => 10,
            Register::X11 => 11,
            Register::X12 => 12,
            Register::X13 => 13,
            Register::X14 => 14,
            Register::X15 => 15,
            Register::Xmpc => 16,
            Register::Xdpc => 17,
        }
    }
}

/// Reason a 32-bit word failed to decode into an instruction.
#[derive(Debug, PartialEq, Eq, Structural, Clone, Copy)]
pub enum DecodeError {
    UnknownOpcode,
    UnknownFunct3,
    UnknownFunct7,
    UnknownRegister,
    UnknownSystemEncoding,
    ReservedBitsNonZero,
}

/// A decoded instruction. Immediates are stored sign-extended to 32 bits;
/// shift amounts are stored as unsigned values `0..=31`.
#[derive(Debug, PartialEq, Eq, Structural, Clone, Copy)]
#[allow(clippy::upper_case_acronyms)]
pub enum Instruction {
    LUI { imm: u32, rd: Register },
    AUIPC { imm: u32, rd: Register },
    JAL { imm: u32, rd: Register },
    JALR { imm: u32, rs1: Register, rd: Register },
    BEQ { imm: u32, rs2: Register, rs1: Register },
    BNE { imm: u32, rs2: Register, rs1: Register },
    BLT { imm: u32, rs2: Register, rs1: Register },
    BGE { imm: u32, rs2: Register, rs1: Register },
    BLTU { imm: u32, rs2: Register, rs1: Register },
    BGEU { imm: u32, rs2: Register, rs1: Register },
    LB { imm: u32, rs1: Register, rd: Register },
    LH { imm: u32, rs1: Register, rd: Register },
    LW { imm: u32, rs1: Register, rd: Register },
    LBU { imm: u32, rs1: Register, rd: Register },
    LHU { imm: u32, rs1: Register, rd: Register },
    SB { imm: u32, rs2: Register, rs1: Register },
    SH { imm: u32, rs2: Register, rs1: Register },
    SW { imm: u32, rs2: Register, rs1: Register },
    ADDI { imm: u32, rs1: Register, rd: Register },
    SLTI { imm: u32, rs1: Register, rd: Register },
    SLTIU { imm: u32, rs1: Register, rd: Register },
    XORI { imm: u32, rs1: Register, rd: Register },
    ORI { imm: u32, rs1: Register, rd: Register },
    ANDI { imm: u32, rs1: Register, rd: Register },
    SLLI { shamt: u32, rs1: Register, rd: Register },
    SRLI { shamt: u32, rs1: Register, rd: Register },
    SRAI { shamt: u32, rs1: Register, rd: Register },
    ADD { rs2: Register, rs1: Register, rd: Register },
    SUB { rs2: Register, rs1: Register, rd: Register },
    SLL { rs2: Register, rs1: Register, rd: Register },
    SLT { rs2: Register, rs1: Register, rd: Register },
    SLTU { rs2: Register, rs1: Register, rd: Register },
    XOR { rs2: Register, rs1: Register, rd: Register },
    SRL { rs2: Register, rs1: Register, rd: Register },
    SRA { rs2: Register, rs1: Register, rd: Register },
    OR { rs2: Register, rs1: Register, rd: Register },
    AND { rs2: Register, rs1: Register, rd: Register },
    FENCE { fm: u32, pred: u32, succ: u32 },
    ECALL,
    EBREAK,
    DRET,
    MRET,
}

/// The display name of a register.
pub open spec fn spec_reg_name(r: Register) -> Seq<char> {
    match r {
        Register::X0 => "X0"@,
        Register::X1 => "X1"@,
        Register::X2 => "X2"@,
        Register::X3 => "X3"@,
        Register::X4 => "X4"@,
        Register::X5 => "X5"@,
        Register::X6 => "X6"@,
        Register::X7 => "X7"@,
        Register::X8 => "X8"@,
        Register::X9 => "X9"@,
        Register::X10 => "X10"@,
        Register::X11 => "X11"@,
        Register::X12 => "X12"@,
        Register::X13 => "X13"@,
        Register::X14 => "X14"@,
        Register::X15 => "X15"@,
        Register::Xmpc => "Xmpc"@,
        Register::Xdpc => "Xdpc"@,
    }
}

/// Append a register's display name.
pub fn push_reg_name(out: &mut Vec<char>, r: Register)
    ensures
        final(out)@ == old(out)@ + spec_reg_name(r),
{
    match r {
        Register::X0 => push_str_chars(out, "X0"),
        Register::X1 => push_str_chars(out, "X1"),
        Register::X2 => push_str_chars(out, "X2"),
        Register::X3 => push_str_chars(out, "X3"),
        Register::X4 => push_str_chars(out, "X4"),
        Register::X5 => push_str_chars(out, "X5"),
        Register::X6 => push_str_chars(out, "X6"),
        Register::X7 => push_str_chars(out, "X7"),
        Register::X8 => push_str_chars(out, "X8"),
        Register::X9 => push_str_chars(out, "X9"),
        Register::X10 => push_str_chars(out, "X10"),
        Register::X11 => push_str_chars(out, "X11"),
        Register::X12 => push_str_chars(out, "X12"),
        Register::X13 => push_str_chars(out, "X13"),
        Register::X14 => push_str_chars(out, "X14"),
        Register::X15 => push_str_chars(out, "X15"),
        Register::Xmpc => push_str_chars(out, "Xmpc"),
        Register::Xdpc => push_str_chars(out, "Xdpc"),
    }
}

/// Text of the shape `<m><reg>, 0x<v>` (LUI and AUIPC, the immediate
/// shown shifted down twelve bits).
pub open spec fn t_upper(m: Seq<char>, rd: Register, v: u32) -> Seq<char> {
    m + spec_reg_name(rd) + ", 0x"@ + spec_hex_min(v as nat)
}

/// Text of the shape `<m><reg>, .+0x<imm>` (JAL).
pub open spec fn t_jump(m: Seq<char>, rd: Register, imm: u32) -> Seq<char> {
    m + spec_reg_name(rd) + ", .+0x"@ + spec_hex_min(imm as nat)
}

/// Text of the shape `<m><a>, 0x<imm>(<b>)` (JALR, loads, stores).
pub open spec fn t_offset(m: Seq<char>, a: Register, imm: u32, b: Register) -> Seq<char> {
    m + spec_reg_name(a) + ", 0x"@ + spec_hex_min(imm as nat) + "("@ + spec_reg_name(b) + ")"@
}

/// Text of the shape `<m><rs1>, <rs2>, .+0x<imm>` (branches).
pub open spec fn t_branch(m: Seq<char>, rs1: Register, rs2: Register, imm: u32) -> Seq<char> {
    m + spec_reg_name(rs1) + ", "@ + spec_reg_name(rs2) + ", .+0x"@ + spec_hex_min(imm as nat)
}

/// Text of the shape `<m><rd>, <rs1>, 0x<v>` (register-immediate ALU).
pub open spec fn t_alu_imm(m: Seq<char>, rd: Register, rs1: Register, v: u32) -> Seq<char> {
    m + spec_reg_name(rd) + ", "@ + spec_reg_name(rs1) + ", 0x"@ + spec_hex_min(v as nat)
}

/// Text of the shape `<m><rd>, <rs1>, <rs2>` (register-register ALU).
pub open spec fn t_alu_rr(m: Seq<char>, rd: Register, rs1: Register, rs2: Register) -> Seq<char> {
    m + spec_reg_name(rd) + ", "@ + spec_reg_name(rs1) + ", "@ + spec_reg_name(rs2)
}

/// Text of FENCE with its three fields in decimal.
pub open spec fn t_fence(fm: u32, pred: u32, succ: u32) -> Seq<char> {
    "fence f="@ + spec_dec_min(fm as nat) + ", p="@ + spec_dec_min(pred as nat) + ", s="@
        + spec_dec_min(succ as nat)
}

/// The assembly-like text of an instruction, as the trace log shows it.
pub open spec fn spec_inst_text(i: Instruction) -> Seq<char> {
    match i {
        Instruction::LUI { imm, rd } => t_upper("lui "@, rd, imm >> 12),
        Instruction::AUIPC { imm, rd } => t_upper("auipc "@, rd, imm >> 12),
        Instruction::JAL { imm, rd } => t_jump("jal "@, rd, imm),
        Instruction::JALR { imm, rs1, rd } => t_offset("jalr "@, rd, imm, rs1),
        Instruction::BEQ { imm, rs2, rs1 } => t_branch("beq "@, rs1, rs2, imm),
        Instruction::BNE { imm, rs2, rs1 } => t_branch("bne "@, rs1, rs2, imm),
        Instruction::BLT { imm, rs2, rs1 } => t_branch("blt "@, rs1, rs2, imm),
        Instruction::BGE { imm, rs2, rs1 } => t_branch("bge "@, rs1, rs2, imm),
        Instruction::BLTU { imm, rs2, rs1 } => t_branch("bltu "@, rs1, rs2, imm),
        Instruction::BGEU { imm, rs2, rs1 } => t_branch("bgeu "@, rs1, rs2, imm),
        Instruction::LB { imm, rs1, rd } => t_offset("lb "@, rd, imm, rs1),
        Instruction::LH { imm, rs1, rd } => t_offset("lh "@, rd, imm, rs1),
        Instruction::LW { imm, rs1, rd } => t_offset("lw "@, rd, imm, rs1),
        Instruction::LBU { imm, rs1, rd } => t_offset("lbu "@, rd, imm, rs1),
        Instruction::LHU { imm, rs1, rd } => t_offset("lhu "@, rd, imm, rs1),
        Instruction::SB { imm, rs2, rs1 } => t_offset("sb "@, rs2, imm, rs1),
        Instruction::SH { imm, rs2, rs1 } => t_offset("sh "@, rs2, imm, rs1),
        Instruction::SW { imm, rs2, rs1 } => t_offset("sw "@, rs2, imm, rs1),
        Instruction::ADDI { imm, rs1, rd } => t_alu_imm("addi "@, rd, rs1, imm),
        Instruction::SLTI { imm, rs1, rd } => t_alu_imm("slti "@, rd, rs1, imm),
        Instruction::SLTIU { imm, rs1, rd } => t_alu_imm("sltiu "@, rd, rs1, imm),
        Instruction::XORI { imm, rs1, rd } => t_alu_imm("xori "@, rd, rs1, imm),
        Instruction::ORI { imm, rs1, rd } => t_alu_imm("ori "@, rd, rs1, imm),
        Instruction::ANDI { imm, rs1, rd } => t_alu_imm("andi "@, rd, rs1, imm),
        Instruction::SLLI { shamt, rs1, rd } => t_alu_imm("slli "@, rd, rs1, shamt),
        Instruction::SRLI { shamt, rs1, rd } => t_alu_imm("srli "@, rd, rs1, shamt),
        Instruction::SRAI { shamt, rs1, rd } => t_alu_imm("srai "@, rd, rs1, shamt),
        Instruction::ADD { rs2, rs1, rd } => t_alu_rr("add "@, rd, rs1, rs2),
        Instruction::SUB { rs2, rs1, rd } => t_alu_rr("sub "@, rd, rs1, rs2),
        Instruction::SLL { rs2, rs1, rd } => t_alu_rr("sll "@, rd, rs1, rs2),
        Instruction::SLT { rs2, rs1, rd } => t_alu_rr("slt "@, rd, rs1, rs2),
        Instruction::SLTU { rs2, rs1, rd } => t_alu_rr("sltu "@, rd, rs1, rs2),
        Instruction::XOR { rs2, rs1, rd } => t_alu_rr("xor "@, rd, rs1, rs2),
        Instruction::SRL { rs2, rs1, rd } => t_alu_rr("srl "@, rd, rs1, rs2),
        Instruction::SRA { rs2, rs1, rd } => t_alu_rr("sra "@, rd, rs1, rs2),
        Instruction::OR { rs2, rs1, rd } => t_alu_rr("or "@, rd, rs1, rs2),
        Instruction::AND { rs2, rs1, rd } => t_alu_rr("and "@, rd, rs1, rs2),
        Instruction::FENCE { fm, pred, succ } => t_fence(fm, pred, succ),
        Instruction::ECALL => "ecall"@,
        Instruction::EBREAK => "ebreak"@,
        Instruction::DRET => "dret"@,
        Instruction::MRET => "mret"@,
    }
}

/// Append `<m><reg>, 0x<v>`.
fn push_upper(out: &mut Vec<char>, m: &str, rd: Register, v: u32)
    ensures
        final(out)@ == old(out)@ + t_upper(m@, rd, v),
{
    push_str_chars(out, m);
    push_reg_name(out, rd);
    push_str_chars(out, ", 0x");
    push_hex_min(out, v);
}

/// Append `<m><reg>, .+0x<imm>`.
fn push_jump(out: &mut Vec<char>, m: &str, rd: Register, imm: u32)
    ensures
        final(out)@ == old(out)@ + t_jump(m@, rd, imm),
{
    push_str_chars(out, m);
    push_reg_name(out, rd);
    push_str_chars(out, ", .+0x");
    push_hex_min(out, imm);
}

/// Append `<m><a>, 0x<imm>(<b>)`.
fn push_offset(out: &mut Vec<char>, m: &str, a: Register, imm: u32, b: Register)
    ensures
        final(out)@ == old(out)@ + t_offset(m@, a, imm, b),
{
    push_str_chars(out, m);
    push_reg_name(out, a);
    push_str_chars(out, ", 0x");
    push_hex_min(out, imm);
    push_str_chars(out, "(");
    push_reg_name(out, b);
    push_str_chars(out, ")");
}

/// Append `<m><rs1>, <rs2>, .+0x<imm>`.
fn push_branch(out: &mut Vec<char>, m: &str, rs1: Register, rs2: Register, imm: u32)
    ensures
        final(out)@ == old(out)@ + t_branch(m@, rs1, rs2, imm),
{
    push_str_chars(out, m);
    push_reg_name(out, rs1);
    push_str_chars(out, ", ");
    push_reg_name(out, rs2);
    push_str_chars(out, ", .+0x");
    push_hex_min(out, imm);
}

/// Append `<m><rd>, <rs1>, 0x<v>`.
fn push_alu_imm(out: &mut Vec<char>, m: &str, rd: Register, rs1: Register, v: u32)
    ensures
        final(out)@ == old(out)@ + t_alu_imm(m@, rd, rs1, v),
{
    push_str_chars(out, m);
    push_reg_name(out, rd);
    push_str_chars(out, ", ");
    push_reg_name(out, rs1);
    push_str_chars(out, ", 0x");
    push_hex_min(out, v);
}

/// Append `<m><rd>, <rs1>, <rs2>`.
fn push_alu_rr(out: &mut Vec<char>, m: &str, rd: Register, rs1: Register, rs2: Register)
    ensures
        final(out)@ == old(out)@ + t_alu_rr(m@, rd, rs1, rs2),
{
    push_str_chars(out, m);
    push_reg_name(out, rd);
    push_str_chars(out, ", ");
    push_reg_name(out, rs1);
    push_str_chars(out, ", ");
    push_reg_name(out, rs2);
}

impl Instruction {
    /// Append this instruction's assembly-like text.
    pub fn push_text(&self, out: &mut Vec<char>)
        ensures
            final(out)@ == old(out)@ + spec_inst_text(*self),
    {
        match *self {
            Instruction::LUI { imm, rd } => push_upper(out, "lui ", rd, imm >> 12),
            Instruction::AUIPC { imm, rd } => push_upper(out, "auipc ", rd, imm >> 12),
            Instruction::JAL { imm, rd } => push_jump(out, "jal ", rd, imm),
            Instruction::JALR { imm, rs1, rd } => push_offset(out, "jalr ", rd, imm, rs1),
            Instruction::BEQ { imm, rs2, rs1 } => push_branch(out, "beq ", rs1, rs2, imm),
            Instruction::BNE { imm, rs2, rs1 } => push_branch(out, "bne ", rs1, rs2, imm),
            Instruction::BLT { imm, rs2, rs1 } => push_branch(out, "blt ", rs1, rs2, imm),
            Instruction::BGE { imm, rs2, rs1 } => push_branch(out, "bge ", rs1, rs2, imm),
            Instruction::BLTU { imm, rs2, rs1 } => push_branch(out, "bltu ", rs1, rs2, imm),
            Instruction::BGEU { imm, rs2, rs1 } => push_branch(out, "bgeu ", rs1, rs2, imm),
            Instruction::LB { imm, rs1, rd } => push_offset(out, "lb ", rd, imm, rs1),
            Instruction::LH { imm, rs1, rd } => push_offset(out, "lh ", rd, imm, rs1),
            Instruction::LW { imm, rs1, rd } => push_offset(out, "lw ", rd, imm, rs1),
            Instruction::LBU { imm, rs1, rd } => push_offset(out, "lbu ", rd, imm, rs1),
            Instruction::LHU { imm, rs1, rd } => push_offset(out, "lhu ", rd, imm, rs1),
            Instruction::SB { imm, rs2, rs1 } => push_offset(out, "sb ", rs2, imm, rs1),
            Instruction::SH { imm, rs2, rs1 } => push_offset(out, "sh ", rs2, imm, rs1),
            Instruction::SW { imm, rs2, rs1 } => push_offset(out, "sw ", rs2, imm, rs1),
            Instruction::ADDI { imm, rs1, rd } => push_alu_imm(out, "addi ", rd, rs1, imm),
            Instruction::SLTI { imm, rs1, rd } => push_alu_imm(out, "slti ", rd, rs1, imm),
            Instruction::SLTIU { imm, rs1, rd } => push_alu_imm(out, "sltiu ", rd, rs1, imm),
            Instruction::XORI { imm, rs1, rd } => push_alu_imm(out, "xori ", rd, rs1, imm),
            Instruction::ORI { imm, rs1, rd } => push_alu_imm(out, "ori ", rd, rs1, imm),
            Instruction::ANDI { imm, rs1, rd } => push_alu_imm(out, "andi ", rd, rs1, imm),
            Instruction::SLLI { shamt, rs1, rd } => push_alu_imm(out, "slli ", rd, rs1, shamt),
            Instruction::SRLI { shamt, rs1, rd } => push_alu_imm(out, "srli ", rd, rs1, shamt),
            Instruction::SRAI { shamt, rs1, rd } => push_alu_imm(out, "srai ", rd, rs1, shamt),
            Instruction::ADD { rs2, rs1, rd } => push_alu_rr(out, "add ", rd, rs1, rs2),
            Instruction::SUB { rs2, rs1, rd } => push_alu_rr(out, "sub ", rd, rs1, rs2),
            Instruction::SLL { rs2, rs1, rd } => push_alu_rr(out, "sll ", rd, rs1, rs2),
            Instruction::SLT { rs2, rs1, rd } => push_alu_rr(out, "slt ", rd, rs1, rs2),
            Instruction::SLTU { rs2, rs1, rd } => push_alu_rr(out, "sltu ", rd, rs1, rs2),
            Instruction::XOR { rs2, rs1, rd } => push_alu_rr(out, "xor ", rd, rs1, rs2),
            Instruction::SRL { rs2, rs1, rd } => push_alu_rr(out, "srl ", rd, rs1, rs2),
            Instruction::SRA { rs2, rs1, rd } => push_alu_rr(out, "sra ", rd, rs1, rs2),
            Instruction::OR { rs2, rs1, rd } => push_alu_rr(out, "or ", rd, rs1, rs2),
            Instruction::AND { rs2, rs1, rd } => push_alu_rr(out, "and ", rd, rs1, rs2),
            Instruction::FENCE { fm, pred, succ } => {
                push_str_chars(out, "fence f=");
                push_dec_min(out, fm);
                push_str_chars(out, ", p=");
                push_dec_min(out, pred);
                push_str_chars(out, ", s=");
                push_dec_min(out, succ);
            },
            Instruction::ECALL => push_str_chars(out, "ecall"),
            Instruction::EBREAK => push_str_chars(out, "ebreak"),
            Instruction::DRET => push_str_chars(out, "dret"),
            Instruction::MRET => push_str_chars(out, "mret"),
        }
    }

    /// The assembly-like text of this instruction (`lui X15, 0x12345`,
    /// `beq X0, X1, .+0x4`, `ecall`, ...).
    pub fn to_text(&self) -> (r: String)
        ensures
            r@ == spec_inst_text(*self),
    {
        let mut out: Vec<char> = Vec::new();
        self.push_text(&mut out);
        crate::textfmt::chars_to_string(out)
    }
}

} // verus!
