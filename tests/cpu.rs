use cpu6502::cpu::CPU;
use cpu6502::flags::StatusFlags;

#[test]
fn cpu_test_0xa9_lda_immediate_load_data() {
    let mut cpu = CPU::new();
    cpu.load_and_run(vec![0xA9, 0x05, 0x00]).unwrap();
    assert_eq!(cpu.register_a, 0x05);
    assert!(!cpu.status.contains(StatusFlags::ZERO));
    assert!(!cpu.status.contains(StatusFlags::NEGATIVE));
}

#[test]
fn cpu_test_0xa5_lda_zero_page_load_data() {
    let mut cpu = CPU::new();
    cpu.mem_write(0x10, 0x55);
    cpu.load_and_run(vec![0xA5, 0x10, 0x00]).unwrap();
    assert_eq!(cpu.register_a, 0x55);
}

#[test]
fn cpu_test_0xad_lda_absolute_load_data() {
    let mut cpu = CPU::new();
    cpu.mem_write_u16(0x55DD, 0x4455);
    cpu.load_and_run(vec![0xAD, 0xDD, 0x55, 0x00]).unwrap();
    assert_eq!(cpu.register_a, 0x55);
}

#[test]
fn cpu_test_0x85_sta_zero_page_store_a_register() {
    let mut cpu = CPU::new();
    cpu.load_and_run(vec![0xA9, 0xFF, 0x85, 0x81, 0x00]).unwrap();
    let value = cpu.mem_read(0x81);
    assert_eq!(value, 0xFF);
}

#[test]
fn cpu_test_0x95_sta_zero_page_x_store_register_a() {
    let mut cpu = CPU::new();
    cpu.load_and_run(vec![0xA9, 0x01, 0xAA, 0x95, 0x01, 0x00]).unwrap();
    let value = cpu.mem_read(0x02);
    assert_eq!(value, 0x01);
}

#[test]
fn cpu_test_0xa9_lda_zero_flag() {
    let mut cpu = CPU::new();
    cpu.load_and_run(vec![0xA9, 0x00, 0x00]).unwrap();
    assert!(cpu.status.contains(StatusFlags::ZERO));
}

#[test]
fn cpu_test_0xa9_lda_negative_flag() {
    let mut cpu = CPU::new();
    cpu.load_and_run(vec![0xA9, 0xFF, 0x00]).unwrap();
    assert!(cpu.status.contains(StatusFlags::NEGATIVE));
}

#[test]
fn cpu_test_0xaa_tax_immediate_load_data() {
    let mut cpu = CPU::new();
    cpu.load_and_run(vec![0xA9, 0x05, 0xAA, 0x00]).unwrap();
    assert_eq!(cpu.register_a, cpu.register_x);
}

#[test]
fn cpu_test_0xaa_tax_zero_flag() {
    let mut cpu = CPU::new();
    cpu.load_and_run(vec![0xA9, 0x00, 0xAA, 0x00]).unwrap();
    assert!(cpu.status.contains(StatusFlags::ZERO));
}

#[test]
fn cpu_test_0xaa_tax_negative_flag() {
    let mut cpu = CPU::new();
    cpu.load_and_run(vec![0xA9, 0xFF, 0xAA, 0x00]).unwrap();
    assert!(cpu.status.contains(StatusFlags::NEGATIVE));
}

#[test]
fn cpu_test_0xe8_inx_immediate_increment() {
    let mut cpu = CPU::new();
    cpu.load_and_run(vec![0xA9, 0x05, 0xAA, 0xE8, 0x00]).unwrap();
    assert_eq!(cpu.register_x, 6);
}

#[test]
fn cpu_test_inx_overflow() {
    let mut cpu = CPU::new();
    cpu.load_and_run(vec![0xA9, 0xFF, 0xAA, 0xE8, 0xE8, 0x00]).unwrap();
    assert_eq!(cpu.register_x, 1);
}

#[test]
fn cpu_test_5_ops_working_together() {
    let mut cpu = CPU::new();
    cpu.load_and_run(vec![0xa9, 0xc0, 0xaa, 0xe8, 0x00]).unwrap();
    assert_eq!(cpu.register_x, 0xc1);
}
