use sim86::registers::{Flag, Register, RegisterFile, RegisterRow};

#[test]
fn aliasing_byte_writes_assemble_word() {
    let mut rf = RegisterFile::new();
    rf.set(Register::AL, 0x12);
    rf.set(Register::AH, 0x34);
    assert_eq!(rf.get(Register::AX), 0x3412);
}

#[test]
fn aliasing_word_write_sets_byte_views() {
    let mut rf = RegisterFile::new();
    rf.set(Register::AX, 0xABCD);
    assert_eq!(rf.get(Register::AL), 0xCD);
    assert_eq!(rf.get(Register::AH), 0xAB);
}

#[test]
fn byte_write_leaves_other_half_untouched() {
    let mut rf = RegisterFile::new();
    rf.set(Register::BX, 0x7788);
    rf.set(Register::BL, 0x99);
    assert_eq!(rf.get(Register::BX), 0x7799);
    rf.set(Register::BH, 0x11);
    assert_eq!(rf.get(Register::BX), 0x1199);
}

#[test]
fn byte_write_truncates_to_low_byte() {
    let mut rf = RegisterFile::new();
    rf.set(Register::CL, 0x1234);
    assert_eq!(rf.get(Register::CL), 0x34);
    assert_eq!(rf.get(Register::CX), 0x0034);
}

#[test]
fn new_register_file_is_zeroed() {
    let rf = RegisterFile::new();
    assert_eq!(rf.get(Register::AX), 0);
    assert_eq!(rf.get(Register::SP), 0);
    assert_eq!(rf.ip, 0);
    assert!(!rf.get_flag(Flag::Zero));
    assert!(!rf.get_flag(Flag::Carry));
    assert!(!rf.get_flag(Flag::Sign));
    assert!(!rf.get_flag(Flag::Parity));
}

#[test]
fn flags_from_zero_result() {
    let mut rf = RegisterFile::new();
    rf.set_flags_from_result(0);
    assert!(rf.get_flag(Flag::Zero));
    assert!(!rf.get_flag(Flag::Sign));
    assert!(rf.get_flag(Flag::Parity));
}

#[test]
fn flags_from_negative_odd_result() {
    let mut rf = RegisterFile::new();
    rf.set_flags_from_result(-3);
    assert!(!rf.get_flag(Flag::Zero));
    assert!(rf.get_flag(Flag::Sign));
    assert!(!rf.get_flag(Flag::Parity));
}

#[test]
fn flags_from_positive_even_result() {
    let mut rf = RegisterFile::new();
    rf.set_flags_from_result(12);
    assert!(!rf.get_flag(Flag::Zero));
    assert!(!rf.get_flag(Flag::Sign));
    assert!(rf.get_flag(Flag::Parity));
}

#[test]
fn carry_flag_is_never_recomputed() {
    let mut rf = RegisterFile::new();
    rf.flags = 0x01;
    assert!(rf.get_flag(Flag::Carry));
    rf.set_flags_from_result(-7);
    assert!(rf.get_flag(Flag::Carry));
    rf.set_flags_from_result(0);
    assert!(rf.get_flag(Flag::Carry));
}

#[test]
fn move_ip_forward_and_backward() {
    let mut rf = RegisterFile::new();
    rf.move_ip_by(3);
    assert_eq!(rf.ip, 3);
    rf.move_ip_by(-2);
    assert_eq!(rf.ip, 1);
    rf.move_ip_by(-4);
    assert_eq!(rf.ip, 0xFFFD);
}

#[test]
fn register_row_assembles_word() {
    let row = RegisterRow { low: 0xCD, high: 0xAB };
    assert_eq!(row.get(), 0xABCD);
    assert_eq!(RegisterRow::new().get(), 0);
}

#[test]
fn raw_memory_lists_bytes_in_encoding_order() {
    let mut rf = RegisterFile::new();
    rf.set(Register::AX, 0x0201);
    rf.set(Register::DI, 0xFFEE);
    let mem = rf.raw_memory();
    assert_eq!(mem[0], 0x01);
    assert_eq!(mem[1], 0x02);
    assert_eq!(mem[14], 0xEE);
    assert_eq!(mem[15], 0xFF);
    assert_eq!(&mem[2..14], &[0u8; 12]);
}
