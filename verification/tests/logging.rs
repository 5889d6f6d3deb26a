use drv_isa_sim::inst::Register;
use drv_isa_sim::inst_decoding::decode_inst;
use drv_isa_sim::inst_log::Value;
use drv_isa_sim::{
    DRVSim, DRVSimConfig, MemoryRegionConfig, MemoryRegionType, ValueInit,
};

fn rom_simulator(insts: Vec<u32>) -> DRVSim {
    let mut sim = DRVSim::new(DRVSimConfig {
        entry: 0x1000000,
        mtvec: 0,
        dvec: 0,
        mem_regions: vec![MemoryRegionConfig {
            adr_range: 0x1000000..0x1008000,
            init: ValueInit::Error,
            region_type: MemoryRegionType::ROM,
        }],
        reg_init: ValueInit::Zero,
    });
    for (idx, inst) in insts.iter().enumerate() {
        sim.program_w(0x1000000 + (idx as u32) * 4, *inst).unwrap();
    }
    sim
}

#[test]
fn inst_text_examples() {
    assert_eq!(decode_inst(0x123457b7).unwrap().to_text(), "lui X15, 0x12345");
    assert_eq!(decode_inst(0x004605e7).unwrap().to_text(), "jalr X11, 0x4(X12)");
    assert_eq!(decode_inst(0x00100263).unwrap().to_text(), "beq X0, X1, .+0x4");
    assert_eq!(decode_inst(0x0a3125a3).unwrap().to_text(), "sw X3, 0xab(X2)");
    assert_eq!(decode_inst(0x01f29313).unwrap().to_text(), "slli X6, X5, 0x1f");
    assert_eq!(decode_inst(0x003100b3).unwrap().to_text(), "add X1, X2, X3");
    assert_eq!(decode_inst(0x00000073).unwrap().to_text(), "ecall");
    assert_eq!(decode_inst(0x0ff0000f).unwrap().to_text(), "fence f=0, p=15, s=15");
}

#[test]
fn value_text_widths() {
    assert_eq!(
        Value::register_value(Register::X3, 0x100).to_text(),
        "X3 = 0x00000100"
    );
    assert_eq!(
        Value::memory_value(0xAB, 1, 0xDEADBEEF).to_text(),
        "mem[0xab] = 0xdeadbeef"
    );
    assert_eq!(
        Value::memory_value(0xAB, 2, 0x1).to_text(),
        "mem[0x00ab] = 0x00000001"
    );
    assert_eq!(
        Value::memory_value(0x2000000, 4, 0x1).to_text(),
        "mem[0x02000000] = 0x00000001"
    );
}

#[test]
fn log_line_commit_only() {
    // lui X15, 0x12345: the 16-character instruction text is right-aligned
    // in a 25-character field.
    let mut sim = rom_simulator(vec![0x123457B7]);
    let log = sim.step().unwrap();
    assert_eq!(
        log.to_log_string(),
        "0x01000000: [  ]          lui X15, 0x12345 | Commited: [X15 = 0x12345000]"
    );
}

#[test]
fn log_line_branching_and_inputs() {
    // beq X1, X2, .-4 taken (both registers read as zero).
    let mut sim = rom_simulator(vec![0xFE208EE3]);
    let log = sim.step().unwrap();
    assert_eq!(
        log.to_log_string(),
        "0x01000000: [  ]  beq X1, X2, .+0xfffffffc | Branching: 0x00fffffc \
         Input: [X1 = 0x00000000, X2 = 0x00000000]"
    );
}
