use drv_isa_sim::inst::{DecodeError, Instruction, Register};
use drv_isa_sim::inst_decoding::decode_inst;

#[test]
fn inst_decoding() {
    let input = vec![
        (0x123457b7_u32, "lui x15, 0x12345"),
        (0x1beef517_u32, "auipc x10, 0x1beef"),
        (0x004000ef_u32, "jal x1, .+0x4"),
        (0x004605e7_u32, "jalr x11, 0x4(x12)"),
        (0x00100263_u32, "beq x0, x1, .+0x4"),
        (0x00311463_u32, "bne x2, x3, .+0x8"),
        (0x00524963_u32, "blt x4, x5, .+0x12"),
        (0x00735b63_u32, "bge x6, x7, .+0x16"),
        (0x02946063_u32, "bltu x8, x9, .+0x20"),
        (0x02b57263_u32, "bgeu x10, x11, .+0x24"),
        (0x0ff68603_u32, "lb x12, 0xFF(x13)"),
        (0x0ff69603_u32, "lh x12, 0xFF(x13)"),
        (0x0ff6a603_u32, "lw x12, 0xFF(x13)"),
        (0x0ff6c603_u32, "lbu x12, 0xFF(x13)"),
        (0x0ff6d603_u32, "lhu x12, 0xFF(x13)"),
        (0x0a1005a3_u32, "sb x1, 0xAB(x0)"),
        (0x0a2095a3_u32, "sh x2, 0xAB(x1)"),
        (0x0a3125a3_u32, "sw x3, 0xAB(x2)"),
        (0x00130293_u32, "addi x5, x6, 0x1"),
        (0x00132293_u32, "slti x5, x6, 0x1"),
        (0x00133293_u32, "sltiu x5, x6, 0x1"),
        (0x00134293_u32, "xori x5, x6, 0x1"),
        (0x00136293_u32, "ori x5, x6, 0x1"),
        (0x00137293_u32, "andi x5, x6, 0x1"),
        (0x01f29313_u32, "slli x6, x5, 0x1f"),
        (0x01445393_u32, "srli x7, x8, 0x14"),
        (0x40a15093_u32, "srai x1, x2, 0xa"),
        (0x003100b3_u32, "add x1, x2, x3"),
        (0x40628233_u32, "sub x4, x5, x6"),
        (0x009413b3_u32, "sll x7, x8, x9"),
        (0x00c5a533_u32, "slt x10, x11, x12"),
        (0x00c5b533_u32, "sltu x10, x11, x12"),
        (0x003140b3_u32, "xor x1, x2, x3"),
        (0x005251b3_u32, "srl x3, x4, x5"),
        (0x405251b3_u32, "sra x3, x4, x5"),
        (0x003160b3_u32, "or x1, x2, x3"),
        (0x003170b3_u32, "and x1, x2, x3"),
        (0x00000073_u32, "ecall"),
        (0x00100073_u32, "ebreak"),
        (0x7b200073_u32, "dret"),
        (0x30200073_u32, "mret"),
    ];

    for (binary, orig) in input {
        println!("Decoding 0x{binary:x} (objdump_output)");
        let inst = decode_inst(binary).unwrap();
        let inst = inst.to_text().to_lowercase();
        let orig = orig.to_lowercase();
        assert_eq!(inst, orig);
    }

    assert!(matches!(
        decode_inst(0x0ff0000f_u32).unwrap(),
        Instruction::FENCE { .. }
    ));
}

#[test]
fn decode_fields_exact() {
    assert_eq!(
        decode_inst(0x123457b7),
        Ok(Instruction::LUI { imm: 0x12345000, rd: Register::X15 })
    );
    // addi x5, x6, -1: the immediate is sign-extended to 32 bits.
    assert_eq!(
        decode_inst(0xfff30293),
        Ok(Instruction::ADDI { imm: 0xFFFFFFFF, rs1: Register::X6, rd: Register::X5 })
    );
    // beq x1, x2, .-4: B-type immediate of -4.
    assert_eq!(
        decode_inst(0xfe208ee3),
        Ok(Instruction::BEQ { imm: 0xFFFFFFFC, rs2: Register::X2, rs1: Register::X1 })
    );
    // sw x3, 0xab(x2): S-type immediate reassembled from its two parts.
    assert_eq!(
        decode_inst(0x0a3125a3),
        Ok(Instruction::SW { imm: 0xAB, rs2: Register::X3, rs1: Register::X2 })
    );
    // jal x1, .+4: J-type immediate.
    assert_eq!(
        decode_inst(0x004000ef),
        Ok(Instruction::JAL { imm: 0x4, rd: Register::X1 })
    );
    // Register fields 16 and 17 name the auxiliary registers.
    assert_eq!(
        decode_inst(0x00000837),
        Ok(Instruction::LUI { imm: 0, rd: Register::Xmpc })
    );
    assert_eq!(
        decode_inst(0x000008b7),
        Ok(Instruction::LUI { imm: 0, rd: Register::Xdpc })
    );
}

#[test]
fn decode_errors_exact() {
    // Opcode 0 names no instruction family.
    assert_eq!(decode_inst(0x00000000), Err(DecodeError::UnknownOpcode));
    // Branch with funct3 = 2 is undefined.
    assert_eq!(decode_inst(0x0020a063), Err(DecodeError::UnknownFunct3));
    // Register-register ALU with funct7 = 1 is undefined.
    assert_eq!(decode_inst(0x022081b3), Err(DecodeError::UnknownFunct7));
    // SLLI requires the high seven bits to be zero.
    assert_eq!(decode_inst(0x02209093), Err(DecodeError::ReservedBitsNonZero));
    // A register field of 18 names no register (LUI with rd = 18).
    assert_eq!(decode_inst(0x00000937), Err(DecodeError::UnknownRegister));
    // A SYSTEM word other than the four fixed patterns.
    assert_eq!(decode_inst(0x00200073), Err(DecodeError::UnknownSystemEncoding));
    // JALR requires funct3 = 0.
    assert_eq!(decode_inst(0x00509067), Err(DecodeError::UnknownFunct3));
    // Register fields are validated before the funct3 dispatch: a branch
    // with both an out-of-range rs2 (20) and an undefined funct3 (2)
    // reports the register fault.
    assert_eq!(decode_inst(0x01402063), Err(DecodeError::UnknownRegister));
}
