use drv_isa_sim::inst::Register;
use drv_isa_sim::{
    DRVSim, DRVSimConfig, MemoryRegionConfig, MemoryRegionType, ValueInit,
};

const ROM_START: u32 = 0x1000000;
const RAM_START: u32 = 0x2000000;

// A simulator with one instruction in ROM, X1 and X2 pre-loaded, and an
// optional word programmed into RAM.
fn sim_with(inst: u32, x1: u32, x2: u32, mem: Option<(u32, u32)>) -> DRVSim {
    let mut sim = DRVSim::new(DRVSimConfig {
        entry: ROM_START,
        mtvec: 0,
        dvec: 0,
        mem_regions: vec![
            MemoryRegionConfig {
                adr_range: ROM_START..ROM_START + 0x8000,
                init: ValueInit::Error,
                region_type: MemoryRegionType::ROM,
            },
            MemoryRegionConfig {
                adr_range: RAM_START..RAM_START + 0x8000,
                init: ValueInit::FixedByte(0xAB),
                region_type: MemoryRegionType::RAM,
            },
        ],
        reg_init: ValueInit::Error,
    });
    sim.program_w(ROM_START, inst).unwrap();
    if let Some((adr, val)) = mem {
        sim.program_w(adr, val).unwrap();
    }
    sim.write_register(Register::X1, x1);
    sim.write_register(Register::X2, x2);
    sim
}

fn x3_after(inst: u32, x1: u32, x2: u32, mem: Option<(u32, u32)>) -> u32 {
    let mut sim = sim_with(inst, x1, x2, mem);
    sim.step().unwrap();
    sim.read_register(Register::X3).unwrap().val
}

#[test]
fn inst_sub() {
    // sub X3, X1, X2
    assert_eq!(x3_after(0x402081B3, 0x300, 0x200, None), 0x100);
    assert_eq!(x3_after(0x402081B3, 0x0, 0x1, None), 0xFFFFFFFF);
}

#[test]
fn inst_xor_or_and() {
    // xor X3, X1, X2
    assert_eq!(x3_after(0x0020C1B3, 0xFFFF0000, 0xF0F08421, None), 0x0F0F8421);
    // or X3, X1, X2
    assert_eq!(x3_after(0x0020E1B3, 0xFFFF0000, 0x0000FFFF, None), 0xFFFFFFFF);
    // and X3, X1, X2
    assert_eq!(x3_after(0x0020F1B3, 0xFFFFFFFF, 0xDEADBEEF, None), 0xDEADBEEF);
}

#[test]
fn inst_addi_negative() {
    // addi X3, X1, -1
    assert_eq!(x3_after(0xFFF08193, 0x100, 0, None), 0xFF);
    assert_eq!(x3_after(0xFFF08193, 0x0, 0, None), 0xFFFFFFFF);
}

#[test]
fn inst_sltiu_sign_extended_immediate() {
    // sltiu X3, X1, -2: the immediate is sign-extended to 0xFFFFFFFE and
    // then compared unsigned.
    assert_eq!(x3_after(0xFFE0B193, 0xFFFFFFFD, 0, None), 1);
    assert_eq!(x3_after(0xFFE0B193, 0xFFFFFFFE, 0, None), 0);
    assert_eq!(x3_after(0xFFE0B193, 0xFFFFFFFF, 0, None), 0);
}

#[test]
fn inst_slli_srli() {
    // slli X3, X1, 31
    assert_eq!(x3_after(0x01F09193, 0xDEADBEEF, 0, None), 0xDEADBEEF_u32 << 31);
    // srli X3, X1, 31
    assert_eq!(x3_after(0x01F0D193, 0x80000000, 0, None), 0x1);
    assert_eq!(x3_after(0x01F0D193, 0x7FFFFFFF, 0, None), 0x0);
}

#[test]
fn inst_sra_register_shift() {
    // sra X3, X1, X2: arithmetic shift by the low five bits of X2.
    assert_eq!(x3_after(0x4020D1B3, 0x80000000, 31, None), 0xFFFFFFFF);
    assert_eq!(x3_after(0x4020D1B3, 0x80000000, 0xFFF, None), 0xFFFFFFFF);
    assert_eq!(x3_after(0x4020D1B3, 0x7FFFFFFF, 31, None), 0x0);
}

#[test]
fn inst_blt_signed() {
    // blt X1, X2, .+16 with X1 = -1 and X2 = 1: taken.
    let mut sim = sim_with(0x0020C863, 0xFFFFFFFF, 1, None);
    sim.step().unwrap();
    assert_eq!(sim.pc(), ROM_START + 16);
    // With the operands swapped: not taken.
    let mut sim = sim_with(0x0020C863, 1, 0xFFFFFFFF, None);
    sim.step().unwrap();
    assert_eq!(sim.pc(), ROM_START + 4);
}

#[test]
fn inst_bgeu_unsigned() {
    // bgeu X1, X2, .+8 with large unsigned X1: taken.
    let mut sim = sim_with(0x0020F463, 0xFFFFFFFF, 0xFFFFFFFE, None);
    sim.step().unwrap();
    assert_eq!(sim.pc(), ROM_START + 8);
}

#[test]
fn inst_lw_lh_lhu_lbu() {
    // lw X3, 0x100(X1)
    assert_eq!(
        x3_after(0x1000A183, RAM_START, 0, Some((RAM_START + 0x100, 0xDEADBEEF))),
        0xDEADBEEF
    );
    // lh X3, 0x100(X1): sign-extended half.
    assert_eq!(
        x3_after(0x10009183, RAM_START, 0, Some((RAM_START + 0x100, 0xDEADBEEF))),
        0xFFFFBEEF
    );
    // lhu X3, 0x100(X1): zero-extended half.
    assert_eq!(
        x3_after(0x1000D183, RAM_START, 0, Some((RAM_START + 0x100, 0xDEADBEEF))),
        0x0000BEEF
    );
    // lbu X3, 0x100(X1): zero-extended byte.
    assert_eq!(
        x3_after(0x1000C183, RAM_START, 0, Some((RAM_START + 0x100, 0xDEADBEEF))),
        0x000000EF
    );
}

#[test]
fn inst_sh_sw() {
    // sh X2, 0x100(X1): the low half lands over the programmed word.
    let mut sim = sim_with(
        0x10209023,
        RAM_START - 0x100,
        0xDEADBEEF,
        Some((RAM_START, 0xABABABAB)),
    );
    sim.step().unwrap();
    assert_eq!(sim.read_w(RAM_START).unwrap().val, 0xABABBEEF);
    // sw X2, 0x100(X1): the whole word lands.
    let mut sim = sim_with(
        0x1020A023,
        RAM_START - 0x100,
        0xDEADBEEF,
        Some((RAM_START, 0xABABABAB)),
    );
    sim.step().unwrap();
    assert_eq!(sim.read_w(RAM_START).unwrap().val, 0xDEADBEEF);
}

#[test]
fn inst_store_to_rom_faults() {
    // sw X2, 0x100(X1) aimed at the ROM: the step fails and the ROM byte
    // keeps its programmed value.
    let mut sim = sim_with(
        0x1020A023,
        ROM_START - 0x100 + 0x10,
        0x11223344,
        Some((ROM_START + 0x10, 0x55667788)),
    );
    let e = sim.step().unwrap_err();
    assert_eq!(
        e,
        drv_isa_sim::SimError::WriteToReadOnly(ROM_START + 0x10)
    );
    assert_eq!(sim.pc(), ROM_START);
    assert_eq!(sim.read_w(ROM_START + 0x10).unwrap().val, 0x55667788);
}
