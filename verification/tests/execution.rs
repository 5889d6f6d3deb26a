use drv_isa_sim::inst::Register;
use drv_isa_sim::inst_log::ValueOrigin;
use drv_isa_sim::{
    DRVSim, DRVSimConfig, MemoryRegionConfig, MemoryRegionType, SimError, ValueInit,
};

const ROM_START: u32 = 0x1000000;
const RAM_START: u32 = 0x2000000;

// A simulator with a ROM at 0x1000000 and a RAM at 0x2000000, the given
// instructions programmed into the ROM, and the given registers and
// memory words pre-loaded.
fn new_simulator(
    insts: Vec<u32>,
    reg_vals: Vec<(Register, u32)>,
    mem_vals: Vec<(u32, u32)>,
) -> DRVSim {
    let mut sim = DRVSim::new(DRVSimConfig {
        entry: ROM_START,
        mtvec: 0,
        dvec: 0,
        mem_regions: vec![
            MemoryRegionConfig {
                adr_range: ROM_START..ROM_START + 0x8000,
                init: ValueInit::Error,
                region_type: MemoryRegionType::ROM,
            },
            MemoryRegionConfig {
                adr_range: RAM_START..RAM_START + 0x8000,
                init: ValueInit::FixedByte(0xAB),
                region_type: MemoryRegionType::RAM,
            },
        ],
        reg_init: ValueInit::Error,
    });

    for (idx, inst) in insts.iter().enumerate() {
        sim.program_w(ROM_START + (idx as u32) * 4, *inst).unwrap();
    }
    for (adr, val) in mem_vals.iter() {
        sim.program_w(*adr, *val).unwrap();
    }
    for (reg, val) in reg_vals.iter() {
        sim.write_register(*reg, *val);
    }

    sim
}

#[test]
fn step_lui() {
    // lui X15, 0x12345
    let mut sim = new_simulator(vec![0x123457B7], vec![], vec![]);
    let log = sim.step().unwrap();
    assert_eq!(sim.read_register(Register::X15).unwrap().val, 0x12345000);
    assert_eq!(sim.pc(), 0x1000004);
    assert_eq!(log.commit_values.len(), 1);
    assert!(matches!(
        log.commit_values[0].origin,
        ValueOrigin::Register(Register::X15)
    ));
    assert_eq!(log.commit_values[0].val, 0x12345000);
    assert!(log.branching.is_none());
}

#[test]
fn step_auipc_wraps() {
    // auipc X3, 0xfffff at PC = 0x1000000: 0x1000000 + 0xFFFFF000 mod 2^32.
    let mut sim = new_simulator(vec![0xFFFFF197], vec![], vec![]);
    sim.step().unwrap();
    assert_eq!(sim.read_register(Register::X3).unwrap().val, 0x00FFF000);
    assert_eq!(sim.pc(), 0x1000004);
}

#[test]
fn step_add_overflow() {
    // add X3, X1, X2 with X1 = 0xFFFFFFFF and X2 = 1 wraps to 0.
    let mut sim = new_simulator(
        vec![0x002081B3],
        vec![(Register::X1, 0xFFFFFFFF), (Register::X2, 0x1)],
        vec![],
    );
    sim.step().unwrap();
    assert_eq!(sim.read_register(Register::X3).unwrap().val, 0x0);
    assert_eq!(sim.pc(), 0x1000004);
}

#[test]
fn step_beq_taken_backward() {
    // beq X1, X2, .-4 with X1 = X2 = 0 branches to 0x1000000 - 4.
    let mut sim = new_simulator(
        vec![0xFE208EE3],
        vec![(Register::X1, 0), (Register::X2, 0)],
        vec![],
    );
    let log = sim.step().unwrap();
    assert_eq!(sim.pc(), 0x0FFFFFC);
    assert_eq!(log.branching, Some(0x0FFFFFC));
}

#[test]
fn step_beq_not_taken() {
    let mut sim = new_simulator(
        vec![0xFE208EE3],
        vec![(Register::X1, 0), (Register::X2, 1)],
        vec![],
    );
    let log = sim.step().unwrap();
    assert_eq!(sim.pc(), ROM_START + 4);
    assert_eq!(log.branching, None);
}

#[test]
fn step_jalr_clears_low_bit() {
    // jalr X0, 0x5(X1) with X1 = 0x100 branches to 0x104, low bit cleared.
    let mut sim = new_simulator(vec![0x00508067], vec![(Register::X1, 0x100)], vec![]);
    let log = sim.step().unwrap();
    assert_eq!(sim.pc(), 0x104);
    assert_eq!(log.branching, Some(0x104));
    // The link value went to X0 and was dropped: X0 still reads 0.
    assert_eq!(sim.read_register(Register::X0).unwrap().val, 0);
}

#[test]
fn step_lb_sign_extends() {
    // lb X3, 0x100(X1) with X1 = RAM_START and 0xDEADBEEF programmed at
    // RAM_START + 0x100: the low byte 0xEF is sign-extended.
    let mut sim = new_simulator(
        vec![0x10008183],
        vec![(Register::X1, RAM_START)],
        vec![(RAM_START + 0x100, 0xDEADBEEF)],
    );
    sim.step().unwrap();
    assert_eq!(sim.read_register(Register::X3).unwrap().val, 0xFFFFFFEF);
}

#[test]
fn step_store_byte_round_trip() {
    // Program RAM_START with 0xABABABAB, then sb X2, 0x100(X1) with
    // X1 = RAM_START - 0x100 and X2 = 0xDEADBEEF: only the low byte of
    // X2 lands at RAM_START.
    let mut sim = new_simulator(
        vec![0x10208023],
        vec![(Register::X1, RAM_START - 0x100), (Register::X2, 0xDEADBEEF)],
        vec![(RAM_START, 0xABABABAB)],
    );
    sim.step().unwrap();
    assert_eq!(sim.read_w(RAM_START).unwrap().val, 0xABABABEF);
}

#[test]
fn step_not_implemented() {
    let mut sim = new_simulator(vec![0x00000073], vec![], vec![]);
    let e = sim.step().unwrap_err();
    assert!(matches!(e, SimError::NotImplemented(_)));
    // A faulting step does not advance the program counter.
    assert_eq!(sim.pc(), ROM_START);
}

#[test]
fn step_decode_fault_keeps_pc() {
    let mut sim = new_simulator(vec![0x00000000], vec![], vec![]);
    let e = sim.step().unwrap_err();
    assert!(matches!(e, SimError::Decode(_)));
    assert_eq!(sim.pc(), ROM_START);
}

#[test]
fn step_uninit_register_fault() {
    // add X3, X1, X2 with nothing in X1 under the Error policy.
    let mut sim = new_simulator(vec![0x002081B3], vec![], vec![]);
    assert_eq!(sim.step().unwrap_err(), SimError::UninitRegister(Register::X1));
    assert_eq!(sim.pc(), ROM_START);
}

#[test]
fn step_fetch_fault_unmapped() {
    let mut sim = new_simulator(vec![], vec![], vec![]);
    // Nothing was programmed: the ROM is uninitialized under Error.
    assert_eq!(sim.step().unwrap_err(), SimError::UninitRead(ROM_START));
    assert_eq!(sim.pc(), ROM_START);
}

#[test]
fn write_protection_and_programming() {
    let mut sim = new_simulator(vec![], vec![], vec![]);
    // The programming path stores into ROM; the ordinary store path is
    // rejected and leaves the memory untouched.
    sim.program_b(ROM_START, 0x42).unwrap();
    assert_eq!(sim.read_b(ROM_START).unwrap().val, 0x42);
    assert_eq!(
        sim.write_b(ROM_START, 0x43),
        Err(SimError::WriteToReadOnly(ROM_START))
    );
    assert_eq!(
        sim.write_w(ROM_START, 0x43434343),
        Err(SimError::WriteToReadOnly(ROM_START))
    );
    assert_eq!(sim.read_b(ROM_START).unwrap().val, 0x42);
    // RAM accepts both paths.
    sim.write_w(RAM_START, 0x01020304).unwrap();
    assert_eq!(sim.read_w(RAM_START).unwrap().val, 0x01020304);
}

#[test]
fn unmapped_and_boundary_errors() {
    let mut sim = new_simulator(vec![], vec![], vec![]);
    assert_eq!(sim.read_b(0x500), Err(SimError::UnmappedAddress(0x500)));
    assert_eq!(
        sim.write_b(0x500, 1),
        Err(SimError::UnmappedAddress(0x500))
    );
    // The ROM ends at ROM_START + 0x8000: a half access at the last byte
    // and a word access at the last three bytes cross the boundary.
    let end = ROM_START + 0x8000;
    assert_eq!(
        sim.read_h(end - 1),
        Err(SimError::CrossesBoundary { adr: end - 1, len: 2 })
    );
    assert_eq!(
        sim.read_w(end - 3),
        Err(SimError::CrossesBoundary { adr: end - 3, len: 4 })
    );
    assert_eq!(
        sim.write_w(end - 3, 0),
        Err(SimError::CrossesBoundary { adr: end - 3, len: 4 })
    );
}

#[test]
fn word_access_at_top_of_address_space_crosses() {
    // A region's end is exclusive and at most 0xFFFFFFFF, so a four-byte
    // access based at 0xFFFFFFFC can never lie inside one region: a step
    // from PC = 0xFFFFFFFC always faults at fetch instead of executing.
    let mut sim = DRVSim::new(DRVSimConfig {
        entry: 0xFFFFFFFC,
        mtvec: 0,
        dvec: 0,
        mem_regions: vec![MemoryRegionConfig {
            adr_range: 0xFFFF0000..0xFFFFFFFF,
            init: ValueInit::Zero,
            region_type: MemoryRegionType::RAM,
        }],
        reg_init: ValueInit::Zero,
    });
    assert_eq!(
        sim.read_w(0xFFFFFFFC).unwrap_err(),
        SimError::CrossesBoundary { adr: 0xFFFFFFFC, len: 4 }
    );
    assert_eq!(
        sim.step().unwrap_err(),
        SimError::CrossesBoundary { adr: 0xFFFFFFFC, len: 4 }
    );
    assert_eq!(sim.pc(), 0xFFFFFFFC);
}

#[test]
fn step_sequence_jal_then_addi() {
    // jal X1, .+8 then (skipped word) then addi X3, X0, 0x7: two steps,
    // the first branching, the second advancing by four.
    let mut sim = new_simulator(vec![0x008000EF, 0x00000000, 0x00700193], vec![], vec![]);
    let log = sim.step().unwrap();
    assert_eq!(log.branching, Some(ROM_START + 8));
    assert_eq!(sim.pc(), ROM_START + 8);
    assert_eq!(sim.read_register(Register::X1).unwrap().val, ROM_START + 4);
    let log = sim.step().unwrap();
    assert!(log.branching.is_none());
    assert_eq!(sim.pc(), ROM_START + 12);
    assert_eq!(sim.read_register(Register::X3).unwrap().val, 7);
}

#[test]
fn register_init_policies() {
    let mk = |init: ValueInit| {
        DRVSim::new(DRVSimConfig {
            entry: 0,
            mtvec: 0,
            dvec: 0,
            mem_regions: vec![],
            reg_init: init,
        })
    };
    let mut sim = mk(ValueInit::Zero);
    assert_eq!(sim.read_register(Register::X5).unwrap().val, 0);
    let mut sim = mk(ValueInit::Ones);
    assert_eq!(sim.read_register(Register::X5).unwrap().val, 0xFFFFFFFF);
    let mut sim = mk(ValueInit::FixedByte(0xCD));
    assert_eq!(sim.read_register(Register::X5).unwrap().val, 0xCD);
    let mut sim = mk(ValueInit::FixedWord(0xDEADBEEF));
    assert_eq!(sim.read_register(Register::X5).unwrap().val, 0xDEADBEEF);
    let mut sim = mk(ValueInit::Error);
    assert_eq!(
        sim.read_register(Register::X5),
        Err(SimError::UninitRegister(Register::X5))
    );
    // A first read under Random latches: both reads agree.
    let mut sim = mk(ValueInit::Random);
    let first = sim.read_register(Register::X5).unwrap().val;
    assert_eq!(sim.read_register(Register::X5).unwrap().val, first);
}

#[test]
fn write_x0_is_dropped() {
    let mut sim = new_simulator(vec![], vec![], vec![]);
    let v = sim.write_register(Register::X0, 0x1234);
    assert_eq!(v.val, 0);
    assert_eq!(sim.read_register(Register::X0).unwrap().val, 0);
}

#[test]
fn step_shift_uses_low_five_bits() {
    // sll X3, X1, X2 with X2 = 0xF001 shifts by 1.
    let mut sim = new_simulator(
        vec![0x002091B3],
        vec![(Register::X1, 0xDEADBEEF), (Register::X2, 0xF001)],
        vec![],
    );
    sim.step().unwrap();
    assert_eq!(sim.read_register(Register::X3).unwrap().val, 0xDEADBEEF_u32 << 1);
}

#[test]
fn step_srai_arithmetic() {
    // srai X3, X1, 0x1 with the sign bit set keeps it set.
    let mut sim = new_simulator(vec![0x4010D193], vec![(Register::X1, 0x80000000)], vec![]);
    sim.step().unwrap();
    assert_eq!(sim.read_register(Register::X3).unwrap().val, 0xC0000000);
}

#[test]
fn step_slt_signed_sltu_unsigned() {
    // slt X3, X1, X2 with X1 = -1 and X2 = 1: signed comparison holds.
    let mut sim = new_simulator(
        vec![0x0020A1B3],
        vec![(Register::X1, 0xFFFFFFFF), (Register::X2, 1)],
        vec![],
    );
    sim.step().unwrap();
    assert_eq!(sim.read_register(Register::X3).unwrap().val, 1);
    // sltu X3, X1, X2 with the same words: unsigned comparison fails.
    let mut sim = new_simulator(
        vec![0x0020B1B3],
        vec![(Register::X1, 0xFFFFFFFF), (Register::X2, 1)],
        vec![],
    );
    sim.step().unwrap();
    assert_eq!(sim.read_register(Register::X3).unwrap().val, 0);
}

#[test]
fn step_input_list_in_program_order() {
    let mut sim = new_simulator(
        vec![0x002081B3],
        vec![(Register::X1, 7), (Register::X2, 8)],
        vec![],
    );
    let log = sim.step().unwrap();
    assert_eq!(log.input_values.len(), 2);
    assert!(matches!(
        log.input_values[0].origin,
        ValueOrigin::Register(Register::X1)
    ));
    assert_eq!(log.input_values[0].val, 7);
    assert!(matches!(
        log.input_values[1].origin,
        ValueOrigin::Register(Register::X2)
    ));
    assert_eq!(log.input_values[1].val, 8);
    assert_eq!(log.pc, ROM_START);
}

#[test]
fn step_fence_is_noop() {
    let mut sim = new_simulator(vec![0x0FF0000F], vec![], vec![]);
    let log = sim.step().unwrap();
    assert_eq!(sim.pc(), ROM_START + 4);
    assert!(log.input_values.is_empty());
    assert!(log.commit_values.is_empty());
    assert!(log.branching.is_none());
}
