//! Decoder: a pure transformation from a 32-bit instruction word to a
//! tagged instruction value, implementing the R/I/S/B/U/J encoding formats
//! with two's-complement sign extension of every immediate.

use vstd::prelude::*;

use crate::inst::{DecodeError, Instruction, Register, spec_reg};

verus! {

/// Low 7-bit opcode field.
pub open spec fn opcode_of(w: u32) -> u32 {
    w & 0x7F
}

/// The `funct3` field, bits 12..=14.
pub open spec fn funct3_of(w: u32) -> u32 {
    (w >> 12) & 0x7
}

/// The `funct7` field, bits 25..=31.
pub open spec fn funct7_of(w: u32) -> u32 {
    (w >> 25) & 0x7F
}

/// The destination register field, bits 7..=11.
pub open spec fn rd_field(w: u32) -> u32 {
    (w >> 7) & 0x1F
}

/// The first source register field, bits 15..=19.
pub open spec fn rs1_field(w: u32) -> u32 {
    (w >> 15) & 0x1F
}

/// The second source register field, bits 20..=24.
pub open spec fn rs2_field(w: u32) -> u32 {
    (w >> 20) & 0x1F
}

/// The shift-amount field of the immediate shifts, bits 20..=24,
/// zero-extended.
pub open spec fn shamt_field(w: u32) -> u32 {
    (w >> 20) & 0x1F
}

/// Whether the sign bit (bit 31) of the word is set; every sign-extended
/// immediate replicates it.
pub open spec fn sign_bit(w: u32) -> bool {
    w >= 0x80000000
}

/// I-type immediate: bits 0..=10 from `w[20..=30]`, bits 11..=31 from
/// `w[31]`.
pub open spec fn imm_i(w: u32) -> u32 {
    if sign_bit(w) {
        (w >> 20) | 0xFFFFF000u32
    } else {
        w >> 20
    }
}

/// S-type immediate: bits 0..=4 from `w[7..=11]`, bits 5..=10 from
/// `w[25..=30]`, bits 11..=31 from `w[31]`.
pub open spec fn imm_s(w: u32) -> u32 {
    let base = ((w >> 7) & 0x1F) | (((w >> 25) & 0x3F) << 5);
    if sign_bit(w) {
        base | 0xFFFFF800u32
    } else {
        base
    }
}

/// B-type immediate: bit 0 zero, bits 1..=4 from `w[8..=11]`, bits 5..=10
/// from `w[25..=30]`, bit 11 from `w[7]`, bits 12..=31 from `w[31]`.
pub open spec fn imm_b(w: u32) -> u32 {
    let base = (((w >> 8) & 0xF) << 1) | (((w >> 25) & 0x3F) << 5) | (((w >> 7) & 1) << 11);
    if sign_bit(w) {
        base | 0xFFFFF000u32
    } else {
        base
    }
}

/// U-type immediate: bits 0..=11 zero, bits 12..=31 from `w[12..=31]`.
pub open spec fn imm_u(w: u32) -> u32 {
    w & 0xFFFFF000u32
}

/// J-type immediate: bit 0 zero, bits 1..=10 from `w[21..=30]`, bit 11
/// from `w[20]`, bits 12..=19 from `w[12..=19]`, bits 20..=31 from
/// `w[31]`.
pub open spec fn imm_j(w: u32) -> u32 {
    let base = (((w >> 21) & 0x3FF) << 1) | (((w >> 20) & 1) << 11) | (((w >> 12) & 0xFF) << 12);
    if sign_bit(w) {
        base | 0xFFF00000u32
    } else {
        base
    }
}

/// FENCE `fm` field, bits 28..=31.
pub open spec fn fm_field(w: u32) -> u32 {
    (w >> 28) & 0xF
}

/// FENCE `pred` field, bits 24..=27.
pub open spec fn pred_field(w: u32) -> u32 {
    (w >> 24) & 0xF
}

/// FENCE `succ` field, bits 20..=23.
pub open spec fn succ_field(w: u32) -> u32 {
    (w >> 20) & 0xF
}

impl Register {
    /// Decode a 5-bit register field: values `0..=17` name a register,
    /// anything larger is a decode error.
    pub fn new(i: u32) -> (r: Result<Register, DecodeError>)
        ensures
            i < 18 ==> r == Ok::<Register, DecodeError>(spec_reg(i)),
            i >= 18 ==> r == Err::<Register, DecodeError>(DecodeError::UnknownRegister),
    {
        match i {
            0 => Ok(Register::X0),
            1 => Ok(Register::X1),
            2 => Ok(Register::X2),
            3 => Ok(Register::X3),
            4 => Ok(Register::X4),
            5 => Ok(Register::X5),
            6 => Ok(Register::X6),
            7 => Ok(Register::X7),
            8 => Ok(Register::X8),
            9 => Ok(Register::X9),
            10 => Ok(Register::X10),
            11 => Ok(Register::X11),
            12 => Ok(Register::X12),
            13 => Ok(Register::X13),
            14 => Ok(Register::X14),
            15 => Ok(Register::X15),
            16 => Ok(Register::Xmpc),
            17 => Ok(Register::Xdpc),
            _ => Err(DecodeError::UnknownRegister),
        }
    }
}

/// Fields of an R-format instruction word.
struct RInstruction {
    funct7: u32,
    rs2: Register,
    rs1: Register,
    funct3: u32,
    rd: Register,
}

impl RInstruction {
    fn new(inst: u32) -> (r: Result<RInstruction, DecodeError>)
        ensures
            match r {
                Ok(ri) => {
                    &&& rs2_field(inst) < 18
                    &&& rs1_field(inst) < 18
                    &&& rd_field(inst) < 18
                    &&& ri.funct7 == funct7_of(inst)
                    &&& ri.rs2 == spec_reg(rs2_field(inst))
                    &&& ri.rs1 == spec_reg(rs1_field(inst))
                    &&& ri.funct3 == funct3_of(inst)
                    &&& ri.rd == spec_reg(rd_field(inst))
                },
                Err(e) => {
                    &&& (rs2_field(inst) >= 18 || rs1_field(inst) >= 18 || rd_field(inst) >= 18)
                    &&& e == DecodeError::UnknownRegister
                },
            },
    {
        let funct7: u32 = (inst >> 25) & 0x7F;
        let rs2 = Register::new((inst >> 20) & 0x1F)?;
        let rs1 = Register::new((inst >> 15) & 0x1F)?;
        let funct3: u32 = (inst >> 12) & 0x7;
        let rd = Register::new((inst >> 7) & 0x1F)?;
        Ok(RInstruction { funct7, rs2, rs1, funct3, rd })
    }
}

/// Fields of an I-format instruction word, the immediate sign-extended.
struct IInstruction {
    imm: u32,
    rs1: Register,
    funct3: u32,
    rd: Register,
}

impl IInstruction {
    fn new(inst: u32) -> (r: Result<IInstruction, DecodeError>)
        ensures
            match r {
                Ok(ii) => {
                    &&& rs1_field(inst) < 18
                    &&& rd_field(inst) < 18
                    &&& ii.imm == imm_i(inst)
                    &&& ii.rs1 == spec_reg(rs1_field(inst))
                    &&& ii.funct3 == funct3_of(inst)
                    &&& ii.rd == spec_reg(rd_field(inst))
                },
                Err(e) => {
                    &&& (rs1_field(inst) >= 18 || rd_field(inst) >= 18)
                    &&& e == DecodeError::UnknownRegister
                },
            },
    {
        let rs1 = Register::new((inst >> 15) & 0x1F)?;
        let funct3: u32 = (inst >> 12) & 0x7;
        let rd = Register::new((inst >> 7) & 0x1F)?;
        let imm: u32 = if inst >= 0x80000000 {
            (inst >> 20) | 0xFFFFF000
        } else {
            inst >> 20
        };
        Ok(IInstruction { imm, rs1, funct3, rd })
    }
}

/// Fields of an S-format instruction word, the immediate sign-extended.
struct SInstruction {
    imm: u32,
    rs2: Register,
    rs1: Register,
    funct3: u32,
}

impl SInstruction {
    fn new(inst: u32) -> (r: Result<SInstruction, DecodeError>)
        ensures
            match r {
                Ok(si) => {
                    &&& rs2_field(inst) < 18
                    &&& rs1_field(inst) < 18
                    &&& si.imm == imm_s(inst)
                    &&& si.rs2 == spec_reg(rs2_field(inst))
                    &&& si.rs1 == spec_reg(rs1_field(inst))
                    &&& si.funct3 == funct3_of(inst)
                },
                Err(e) => {
                    &&& (rs2_field(inst) >= 18 || rs1_field(inst) >= 18)
                    &&& e == DecodeError::UnknownRegister
                },
            },
    {
        let rs2 = Register::new((inst >> 20) & 0x1F)?;
        let rs1 = Register::new((inst >> 15) & 0x1F)?;
        let funct3: u32 = (inst >> 12) & 0x7;
        let base: u32 = ((inst >> 7) & 0x1F) | (((inst >> 25) & 0x3F) << 5);
        let imm: u32 = if inst >= 0x80000000 {
            base | 0xFFFFF800
        } else {
            base
        };
        Ok(SInstruction { imm, rs2, rs1, funct3 })
    }
}

/// Fields of a B-format instruction word, the immediate sign-extended.
struct BInstruction {
    imm: u32,
    rs2: Register,
    rs1: Register,
    funct3: u32,
}

impl BInstruction {
    fn new(inst: u32) -> (r: Result<BInstruction, DecodeError>)
        ensures
            match r {
                Ok(bi) => {
                    &&& rs2_field(inst) < 18
                    &&& rs1_field(inst) < 18
                    &&& bi.imm == imm_b(inst)
                    &&& bi.rs2 == spec_reg(rs2_field(inst))
                    &&& bi.rs1 == spec_reg(rs1_field(inst))
                    &&& bi.funct3 == funct3_of(inst)
                },
                Err(e) => {
                    &&& (rs2_field(inst) >= 18 || rs1_field(inst) >= 18)
                    &&& e == DecodeError::UnknownRegister
                },
            },
    {
        let rs2 = Register::new((inst >> 20) & 0x1F)?;
        let rs1 = Register::new((inst >> 15) & 0x1F)?;
        let funct3: u32 = (inst >> 12) & 0x7;
        let base: u32 = (((inst >> 8) & 0xF) << 1) | (((inst >> 25) & 0x3F) << 5) | (((inst >> 7)
            & 1) << 11);
        let imm: u32 = if inst >= 0x80000000 {
            base | 0xFFFFF000
        } else {
            base
        };
        Ok(BInstruction { imm, rs2, rs1, funct3 })
    }
}

/// Fields of a U-format instruction word; the immediate keeps bits
/// 12..=31 in place over twelve zero bits.
struct UInstruction {
    imm: u32,
    rd: Register,
}

impl UInstruction {
    fn new(inst: u32) -> (r: Result<UInstruction, DecodeError>)
        ensures
            match r {
                Ok(ui) => {
                    &&& rd_field(inst) < 18
                    &&& ui.imm == imm_u(inst)
                    &&& ui.rd == spec_reg(rd_field(inst))
                },
                Err(e) => rd_field(inst) >= 18 && e == DecodeError::UnknownRegister,
            },
    {
        let rd = Register::new((inst >> 7) & 0x1F)?;
        let imm: u32 = inst & 0xFFFFF000;
        Ok(UInstruction { imm, rd })
    }
}

/// Fields of a J-format instruction word, the immediate sign-extended.
struct JInstruction {
    imm: u32,
    rd: Register,
}

impl JInstruction {
    fn new(inst: u32) -> (r: Result<JInstruction, DecodeError>)
        ensures
            match r {
                Ok(ji) => {
                    &&& rd_field(inst) < 18
                    &&& ji.imm == imm_j(inst)
                    &&& ji.rd == spec_reg(rd_field(inst))
                },
                Err(e) => rd_field(inst) >= 18 && e == DecodeError::UnknownRegister,
            },
    {
        let rd = Register::new((inst >> 7) & 0x1F)?;
        let base: u32 = (((inst >> 21) & 0x3FF) << 1) | (((inst >> 20) & 1) << 11) | (((inst >> 12)
            & 0xFF) << 12);
        let imm: u32 = if inst >= 0x80000000 {
            base | 0xFFF00000
        } else {
            base
        };
        Ok(JInstruction { imm, rd })
    }
}

/// What a 32-bit word decodes to: the instruction with its fields
/// extracted per format, or the first decode fault in field order
/// (register fields are validated before the `funct` dispatch).
pub open spec fn spec_decode(w: u32) -> Result<Instruction, DecodeError> {
    let op = opcode_of(w);
    if op == 0b0110111 {
        if rd_field(w) < 18 {
            Ok(Instruction::LUI { imm: imm_u(w), rd: spec_reg(rd_field(w)) })
        } else {
            Err(DecodeError::UnknownRegister)
        }
    } else if op == 0b0010111 {
        if rd_field(w) < 18 {
            Ok(Instruction::AUIPC { imm: imm_u(w), rd: spec_reg(rd_field(w)) })
        } else {
            Err(DecodeError::UnknownRegister)
        }
    } else if op == 0b1101111 {
        if rd_field(w) < 18 {
            Ok(Instruction::JAL { imm: imm_j(w), rd: spec_reg(rd_field(w)) })
        } else {
            Err(DecodeError::UnknownRegister)
        }
    } else if op == 0b1100111 {
        if rs1_field(w) < 18 && rd_field(w) < 18 {
            if funct3_of(w) == 0 {
                Ok(Instruction::JALR {
                    imm: imm_i(w),
                    rs1: spec_reg(rs1_field(w)),
                    rd: spec_reg(rd_field(w)),
                })
            } else {
                Err(DecodeError::UnknownFunct3)
            }
        } else {
            Err(DecodeError::UnknownRegister)
        }
    } else if op == 0b1100011 {
        if rs2_field(w) < 18 && rs1_field(w) < 18 {
            let imm = imm_b(w);
            let rs2 = spec_reg(rs2_field(w));
            let rs1 = spec_reg(rs1_field(w));
            let f3 = funct3_of(w);
            if f3 == 0 {
                Ok(Instruction::BEQ { imm, rs2, rs1 })
            } else if f3 == 1 {
                Ok(Instruction::BNE { imm, rs2, rs1 })
            } else if f3 == 4 {
                Ok(Instruction::BLT { imm, rs2, rs1 })
            } else if f3 == 5 {
                Ok(Instruction::BGE { imm, rs2, rs1 })
            } else if f3 == 6 {
                Ok(Instruction::BLTU { imm, rs2, rs1 })
            } else if f3 == 7 {
                Ok(Instruction::BGEU { imm, rs2, rs1 })
            } else {
                Err(DecodeError::UnknownFunct3)
            }
        } else {
            Err(DecodeError::UnknownRegister)
        }
    } else if op == 0b0000011 {
        if rs1_field(w) < 18 && rd_field(w) < 18 {
            let imm = imm_i(w);
            let rs1 = spec_reg(rs1_field(w));
            let rd = spec_reg(rd_field(w));
            let f3 = funct3_of(w);
            if f3 == 0 {
                Ok(Instruction::LB { imm, rs1, rd })
            } else if f3 == 1 {
                Ok(Instruction::LH { imm, rs1, rd })
            } else if f3 == 2 {
                Ok(Instruction::LW { imm, rs1, rd })
            } else if f3 == 4 {
                Ok(Instruction::LBU { imm, rs1, rd })
            } else if f3 == 5 {
                Ok(Instruction::LHU { imm, rs1, rd })
            } else {
                Err(DecodeError::UnknownFunct3)
            }
        } else {
            Err(DecodeError::UnknownRegister)
        }
    } else if op == 0b0100011 {
        if rs2_field(w) < 18 && rs1_field(w) < 18 {
            let imm = imm_s(w);
            let rs2 = spec_reg(rs2_field(w));
            let rs1 = spec_reg(rs1_field(w));
            let f3 = funct3_of(w);
            if f3 == 0 {
                Ok(Instruction::SB { imm, rs1, rs2 })
            } else if f3 == 1 {
                Ok(Instruction::SH { imm, rs1, rs2 })
            } else if f3 == 2 {
                Ok(Instruction::SW { imm, rs1, rs2 })
            } else {
                Err(DecodeError::UnknownFunct3)
            }
        } else {
            Err(DecodeError::UnknownRegister)
        }
    } else if op == 0b0010011 {
        if rs1_field(w) < 18 && rd_field(w) < 18 {
            let imm = imm_i(w);
            let rs1 = spec_reg(rs1_field(w));
            let rd = spec_reg(rd_field(w));
            let f3 = funct3_of(w);
            if f3 == 0 {
                Ok(Instruction::ADDI { imm, rs1, rd })
            } else if f3 == 2 {
                Ok(Instruction::SLTI { imm, rs1, rd })
            } else if f3 == 3 {
                Ok(Instruction::SLTIU { imm, rs1, rd })
            } else if f3 == 4 {
                Ok(Instruction::XORI { imm, rs1, rd })
            } else if f3 == 6 {
                Ok(Instruction::ORI { imm, rs1, rd })
            } else if f3 == 7 {
                Ok(Instruction::ANDI { imm, rs1, rd })
            } else if f3 == 1 {
                if funct7_of(w) == 0 {
                    Ok(Instruction::SLLI { shamt: shamt_field(w), rs1, rd })
                } else {
                    Err(DecodeError::ReservedBitsNonZero)
                }
            } else {
                if funct7_of(w) == 0 {
                    Ok(Instruction::SRLI { shamt: shamt_field(w), rs1, rd })
                } else if funct7_of(w) == 0b0100000 {
                    Ok(Instruction::SRAI { shamt: shamt_field(w), rs1, rd })
                } else {
                    Err(DecodeError::UnknownFunct7)
                }
            }
        } else {
            Err(DecodeError::UnknownRegister)
        }
    } else if op == 0b0110011 {
        if rs2_field(w) < 18 && rs1_field(w) < 18 && rd_field(w) < 18 {
            let rs2 = spec_reg(rs2_field(w));
            let rs1 = spec_reg(rs1_field(w));
            let rd = spec_reg(rd_field(w));
            let f3 = funct3_of(w);
            let f7 = funct7_of(w);
            if f7 == 0 && f3 == 0 {
                Ok(Instruction::ADD { rs1, rs2, rd })
            } else if f7 == 0b0100000 && f3 == 0 {
                Ok(Instruction::SUB { rs1, rs2, rd })
            } else if f7 == 0 && f3 == 1 {
                Ok(Instruction::SLL { rs1, rs2, rd })
            } else if f7 == 0 && f3 == 2 {
                Ok(Instruction::SLT { rs1, rs2, rd })
            } else if f7 == 0 && f3 == 3 {
                Ok(Instruction::SLTU { rs1, rs2, rd })
            } else if f7 == 0 && f3 == 4 {
                Ok(Instruction::XOR { rs1, rs2, rd })
            } else if f7 == 0 && f3 == 5 {
                Ok(Instruction::SRL { rs1, rs2, rd })
            } else if f7 == 0b0100000 && f3 == 5 {
                Ok(Instruction::SRA { rs1, rs2, rd })
            } else if f7 == 0 && f3 == 6 {
                Ok(Instruction::OR { rs1, rs2, rd })
            } else if f7 == 0 && f3 == 7 {
                Ok(Instruction::AND { rs1, rs2, rd })
            } else {
                Err(DecodeError::UnknownFunct7)
            }
        } else {
            Err(DecodeError::UnknownRegister)
        }
    } else if op == 0b0001111 {
        if rs1_field(w) < 18 && rd_field(w) < 18 {
            if funct3_of(w) == 0 {
                Ok(Instruction::FENCE { fm: fm_field(w), pred: pred_field(w), succ: succ_field(w) })
            } else {
                Err(DecodeError::UnknownFunct3)
            }
        } else {
            Err(DecodeError::UnknownRegister)
        }
    } else if op == 0b1110011 {
        if w == 0x00000073 {
            Ok(Instruction::ECALL)
        } else if w == 0x00100073 {
            Ok(Instruction::EBREAK)
        } else if w == 0x7b200073 {
            Ok(Instruction::DRET)
        } else if w == 0x30200073 {
            Ok(Instruction::MRET)
        } else {
            Err(DecodeError::UnknownSystemEncoding)
        }
    } else {
        Err(DecodeError::UnknownOpcode)
    }
}

/// Decode a 32-bit word by its opcode field, with secondary dispatch on
/// `funct3`/`funct7` and on the fixed SYSTEM bit patterns.
#[verifier::rlimit(30)]
pub fn decode_inst(inst: u32) -> (r: Result<Instruction, DecodeError>)
    ensures
        r == spec_decode(inst),
{
    let opcode = inst & 0b1111111;
    match opcode {
        0b0110111 => {
            let UInstruction { imm, rd } = UInstruction::new(inst)?;
            Ok(Instruction::LUI { imm, rd })
        },
        0b0010111 => {
            let UInstruction { imm, rd } = UInstruction::new(inst)?;
            Ok(Instruction::AUIPC { imm, rd })
        },
        0b1101111 => {
            let JInstruction { imm, rd } = JInstruction::new(inst)?;
            Ok(Instruction::JAL { imm, rd })
        },
        0b1100111 => {
            let IInstruction { imm, rs1, funct3, rd } = IInstruction::new(inst)?;
            if funct3 != 0b000 {
                return Err(DecodeError::UnknownFunct3);
            }
            Ok(Instruction::JALR { imm, rs1, rd })
        },
        0b1100011 => {
            let BInstruction { imm, rs2, rs1, funct3 } = BInstruction::new(inst)?;
            match funct3 {
                0b000 => Ok(Instruction::BEQ { imm, rs2, rs1 }),
                0b001 => Ok(Instruction::BNE { imm, rs2, rs1 }),
                0b100 => Ok(Instruction::BLT { imm, rs2, rs1 }),
                0b101 => Ok(Instruction::BGE { imm, rs2, rs1 }),
                0b110 => Ok(Instruction::BLTU { imm, rs2, rs1 }),
                0b111 => Ok(Instruction::BGEU { imm, rs2, rs1 }),
                _ => Err(DecodeError::UnknownFunct3),
            }
        },
        0b0000011 => {
            let IInstruction { imm, rs1, funct3, rd } = IInstruction::new(inst)?;
            match funct3 {
                0b000 => Ok(Instruction::LB { imm, rs1, rd }),
                0b001 => Ok(Instruction::LH { imm, rs1, rd }),
                0b010 => Ok(Instruction::LW { imm, rs1, rd }),
                0b100 => Ok(Instruction::LBU { imm, rs1, rd }),
                0b101 => Ok(Instruction::LHU { imm, rs1, rd }),
                _ => Err(DecodeError::UnknownFunct3),
            }
        },
        0b0100011 => {
            let SInstruction { imm, rs2, rs1, funct3 } = SInstruction::new(inst)?;
            match funct3 {
                0b000 => Ok(Instruction::SB { imm, rs1, rs2 }),
                0b001 => Ok(Instruction::SH { imm, rs1, rs2 }),
                0b010 => Ok(Instruction::SW { imm, rs1, rs2 }),
                _ => Err(DecodeError::UnknownFunct3),
            }
        },
        0b0010011 => {
            let IInstruction { imm, rs1, funct3, rd } = IInstruction::new(inst)?;
            match funct3 {
                0b000 => Ok(Instruction::ADDI { imm, rs1, rd }),
                0b010 => Ok(Instruction::SLTI { imm, rs1, rd }),
                0b011 => Ok(Instruction::SLTIU { imm, rs1, rd }),
                0b100 => Ok(Instruction::XORI { imm, rs1, rd }),
                0b110 => Ok(Instruction::ORI { imm, rs1, rd }),
                0b111 => Ok(Instruction::ANDI { imm, rs1, rd }),
                0b001 => {
                    let shamt: u32 = (inst >> 20) & 0b11111;
                    let ctrl: u32 = (inst >> 25) & 0b1111111;
                    if ctrl != 0 {
                        return Err(DecodeError::ReservedBitsNonZero);
                    }
                    Ok(Instruction::SLLI { shamt, rs1, rd })
                },
                _ => {
                    let shamt: u32 = (inst >> 20) & 0b11111;
                    let ctrl: u32 = (inst >> 25) & 0b1111111;
                    match ctrl {
                        0b0000000 => Ok(Instruction::SRLI { shamt, rs1, rd }),
                        0b0100000 => Ok(Instruction::SRAI { shamt, rs1, rd }),
                        _ => Err(DecodeError::UnknownFunct7),
                    }
                },
            }
        },
        0b0110011 => {
            let RInstruction { funct7, rs2, rs1, funct3, rd } = RInstruction::new(inst)?;
            match (funct7, funct3) {
                (0b0000000, 0b000) => Ok(Instruction::ADD { rs1, rs2, rd }),
                (0b0100000, 0b000) => Ok(Instruction::SUB { rs1, rs2, rd }),
                (0b0000000, 0b001) => Ok(Instruction::SLL { rs1, rs2, rd }),
                (0b0000000, 0b010) => Ok(Instruction::SLT { rs1, rs2, rd }),
                (0b0000000, 0b011) => Ok(Instruction::SLTU { rs1, rs2, rd }),
                (0b0000000, 0b100) => Ok(Instruction::XOR { rs1, rs2, rd }),
                (0b0000000, 0b101) => Ok(Instruction::SRL { rs1, rs2, rd }),
                (0b0100000, 0b101) => Ok(Instruction::SRA { rs1, rs2, rd }),
                (0b0000000, 0b110) => Ok(Instruction::OR { rs1, rs2, rd }),
                (0b0000000, 0b111) => Ok(Instruction::AND { rs1, rs2, rd }),
                _ => Err(DecodeError::UnknownFunct7),
            }
        },
        0b0001111 => {
            let IInstruction { funct3, .. } = IInstruction::new(inst)?;
            if funct3 != 0 {
                return Err(DecodeError::UnknownFunct3);
            }
            let fm: u32 = (inst >> 28) & 0b1111;
            let pred: u32 = (inst >> 24) & 0b1111;
            let succ: u32 = (inst >> 20) & 0b1111;
            Ok(Instruction::FENCE { fm, pred, succ })
        },
        0b1110011 => {
            match inst {
                0x00000073 => Ok(Instruction::ECALL),
                0x00100073 => Ok(Instruction::EBREAK),
                0x7b200073 => Ok(Instruction::DRET),
                0x30200073 => Ok(Instruction::MRET),
                _ => Err(DecodeError::UnknownSystemEncoding),
            }
        },
        _ => Err(DecodeError::UnknownOpcode),
    }
}

/// An encoding of the modeled RV32I subset: the opcode names a family,
/// every register field is in range, and the `funct` fields carry one of
/// the defined patterns.
pub open spec fn valid_rv32i_encoding(w: u32) -> bool {
    let op = opcode_of(w);
    let f3 = funct3_of(w);
    let f7 = funct7_of(w);
    ||| ((op == 0b0110111 || op == 0b0010111 || op == 0b1101111) && rd_field(w) < 18)
    ||| (op == 0b1100111 && f3 == 0 && rs1_field(w) < 18 && rd_field(w) < 18)
    ||| (op == 0b1100011 && (f3 == 0 || f3 == 1 || f3 == 4 || f3 == 5 || f3 == 6 || f3 == 7)
        && rs2_field(w) < 18 && rs1_field(w) < 18)
    ||| (op == 0b0000011 && (f3 == 0 || f3 == 1 || f3 == 2 || f3 == 4 || f3 == 5) && rs1_field(w)
        < 18 && rd_field(w) < 18)
    ||| (op == 0b0100011 && (f3 == 0 || f3 == 1 || f3 == 2) && rs2_field(w) < 18 && rs1_field(w)
        < 18)
    ||| (op == 0b0010011 && rs1_field(w) < 18 && rd_field(w) < 18 && (f3 == 0 || f3 == 2 || f3 == 3
        || f3 == 4 || f3 == 6 || f3 == 7 || ((f3 == 1 || f3 == 5) && f7 == 0) || (f3 == 5 && f7
        == 0b0100000)))
    ||| (op == 0b0110011 && rs2_field(w) < 18 && rs1_field(w) < 18 && rd_field(w) < 18 && (f7 == 0
        || (f7 == 0b0100000 && (f3 == 0 || f3 == 5))))
    ||| (op == 0b0001111 && f3 == 0 && rs1_field(w) < 18 && rd_field(w) < 18)
    ||| (w == 0x00000073 || w == 0x00100073 || w == 0x7b200073 || w == 0x30200073)
}

/// Law: the decoder is total on the modeled RV32I subset — every valid
/// encoding decodes to an instruction, never to a fault.
pub proof fn lemma_decode_total(w: u32)
    requires
        valid_rv32i_encoding(w),
    ensures
        spec_decode(w) is Ok,
{
    assert(funct3_of(w) <= 7 && (w == 0x00000073 || w == 0x00100073 || w == 0x7b200073 || w
        == 0x30200073 ==> opcode_of(w) == 0b1110011)) by (bit_vector);
}

} // verus!
