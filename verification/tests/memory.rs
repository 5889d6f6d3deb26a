use drv_isa_sim::memory::Memory;
use drv_isa_sim::{SimError, ValueInit};

#[test]
fn memory_write_read() {
    let mut mem = Memory::new(0xABC, ValueInit::Error, false);
    mem.write_w(0xABC, 0xA1B2C3D4).unwrap();
    assert_eq!(mem.read_b(0xABC).unwrap(), 0xD4);
    assert_eq!(mem.read_b(0xABC + 1).unwrap(), 0xC3);
    assert_eq!(mem.read_b(0xABC + 2).unwrap(), 0xB2);
    assert_eq!(mem.read_b(0xABC + 3).unwrap(), 0xA1);

    mem.write_w(5 * 0x100 + 0xABC, 0xDEADBEEF).unwrap();
    assert_eq!(mem.read_h(5 * 0x100 + 0xABC + 0).unwrap(), 0xBEEF);
    assert_eq!(mem.read_h(5 * 0x100 + 0xABC + 2).unwrap(), 0xDEAD);

    mem.write_w(0x100 - 2 + 0xABC, 0xF1BE0102).unwrap();
    assert_eq!(mem.read_w(0x100 - 2 + 0xABC).unwrap(), 0xF1BE0102);
}

#[test]
#[should_panic]
fn memory_acc_uninit_error() {
    let mem = Memory::new(0xABC, ValueInit::Error, false);
    let _ = mem.read_b(0xABC).unwrap();
}

#[test]
#[should_panic]
fn memory_write_protection() {
    let mut mem = Memory::new(0xABC, ValueInit::Error, true);
    mem.write_b(0xABC, 0x0).unwrap();
}

#[test]
fn memory_acc_fixed() {
    let mem = Memory::new(0, ValueInit::Zero, false);
    assert_eq!(mem.read_b(0).unwrap(), 0);

    let mem = Memory::new(0, ValueInit::Ones, false);
    assert_eq!(mem.read_b(0).unwrap(), 0xFF);

    let mem = Memory::new(0, ValueInit::FixedByte(0xAB), false);
    assert_eq!(mem.read_b(0).unwrap(), 0xAB);
    assert_eq!(mem.read_b(1).unwrap(), 0xAB);
    assert_eq!(mem.read_b(2).unwrap(), 0xAB);
    assert_eq!(mem.read_b(3).unwrap(), 0xAB);

    let mem = Memory::new(0x2, ValueInit::FixedWord(0xDEADBEEF), false);
    assert_eq!(mem.read_b(0x4).unwrap(), 0xEF);
    assert_eq!(mem.read_b(0x5).unwrap(), 0xBE);
    assert_eq!(mem.read_b(0x6).unwrap(), 0xAD);
    assert_eq!(mem.read_b(0x7).unwrap(), 0xDE);
}

#[test]
fn memory_random_reads_succeed() {
    let mem = Memory::new(0, ValueInit::Random, false);
    // An unwritten byte under the Random policy reads successfully and is
    // not latched; a written byte always reads back exactly.
    let _ = mem.read_b(0).unwrap();
    let mut mem = mem;
    mem.write_b(0, 0x5A).unwrap();
    assert_eq!(mem.read_b(0).unwrap(), 0x5A);
}

#[test]
fn memory_uninit_error_reports_first_bad_byte() {
    let mut mem = Memory::new(0, ValueInit::Error, false);
    mem.write_b(4, 0x11).unwrap();
    // Word read at 4: byte 4 is written, byte 5 is the first unwritten one.
    assert_eq!(mem.read_w(4), Err(SimError::UninitRead(5)));
    assert_eq!(mem.read_h(3), Err(SimError::UninitRead(3)));
}
