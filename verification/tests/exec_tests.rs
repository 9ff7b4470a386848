use sim86::decoder::{decode, DecodeError, Reader};
use sim86::render::instruction_text;
use sim86::executor::{execute, run, step};
use sim86::opcodes::{opcode_trie, Opcode};
use sim86::registers::{Flag, Register, RegisterFile};

fn run_program(bytes: &[u8], rf: &mut RegisterFile) -> sim86::executor::RunOutcome {
    let trie = opcode_trie();
    run(&bytes.to_vec(), &trie, rf, 1000)
}

#[test]
fn mov_immediate_writes_register() {
    let mut rf = RegisterFile::new();
    let out = run_program(&[0xB8, 0x05, 0x00], &mut rf);
    assert!(out.halted);
    assert_eq!(out.error, None);
    assert_eq!(out.trace.len(), 1);
    assert_eq!(rf.get(Register::AX), 5);
    assert_eq!(rf.ip, 3);
    assert!(!rf.get_flag(Flag::Zero));
}

#[test]
fn mov_register_to_register_copies_value() {
    let mut rf = RegisterFile::new();
    // mov bx, 7; mov ax, bx
    let out = run_program(&[0xBB, 0x07, 0x00, 0x89, 0xD8], &mut rf);
    assert!(out.halted);
    assert_eq!(rf.get(Register::AX), 7);
    assert_eq!(rf.get(Register::BX), 7);
}

#[test]
fn add_immediate_updates_register_and_flags() {
    let mut rf = RegisterFile::new();
    rf.set(Register::SI, 10);
    let out = run_program(&[0x83, 0xC6, 0x02], &mut rf);
    assert!(out.halted);
    assert_eq!(rf.get(Register::SI), 12);
    assert!(!rf.get_flag(Flag::Zero));
    assert!(!rf.get_flag(Flag::Sign));
    assert!(rf.get_flag(Flag::Parity));
}

#[test]
fn sub_to_zero_sets_zero_and_parity() {
    let mut rf = RegisterFile::new();
    // mov ax, 5; sub ax, 5
    let out = run_program(&[0xB8, 0x05, 0x00, 0x2D, 0x05, 0x00], &mut rf);
    assert!(out.halted);
    assert_eq!(rf.get(Register::AX), 0);
    assert!(rf.get_flag(Flag::Zero));
    assert!(!rf.get_flag(Flag::Sign));
    assert!(rf.get_flag(Flag::Parity));
}

#[test]
fn sub_below_zero_sets_sign_with_wraparound() {
    let mut rf = RegisterFile::new();
    // mov ax, 3; sub ax, 5: result -2.
    let out = run_program(&[0xB8, 0x03, 0x00, 0x2D, 0x05, 0x00], &mut rf);
    assert!(out.halted);
    assert_eq!(rf.get(Register::AX), 0xFFFE);
    assert!(!rf.get_flag(Flag::Zero));
    assert!(rf.get_flag(Flag::Sign));
    assert!(rf.get_flag(Flag::Parity));
}

#[test]
fn sub_to_odd_negative_clears_parity() {
    let mut rf = RegisterFile::new();
    // mov ax, 3; sub ax, 6: result -3, odd.
    run_program(&[0xB8, 0x03, 0x00, 0x2D, 0x06, 0x00], &mut rf);
    assert!(rf.get_flag(Flag::Sign));
    assert!(!rf.get_flag(Flag::Parity));
}

#[test]
fn cmp_sets_the_same_flags_but_keeps_the_register() {
    let mut sub_rf = RegisterFile::new();
    run_program(&[0xB8, 0x03, 0x00, 0x2D, 0x05, 0x00], &mut sub_rf);
    let mut cmp_rf = RegisterFile::new();
    let out = run_program(&[0xB8, 0x03, 0x00, 0x3D, 0x05, 0x00], &mut cmp_rf);
    assert!(out.halted);
    assert_eq!(cmp_rf.get(Register::AX), 3);
    assert_eq!(cmp_rf.flags, sub_rf.flags);
}

#[test]
fn cmp_register_form_updates_flags_only() {
    let mut rf = RegisterFile::new();
    // mov ax, 5; mov bx, 5; cmp ax, bx (39 D8: d=0 w=1, dest ax, src bx)
    let out = run_program(&[0xB8, 0x05, 0x00, 0xBB, 0x05, 0x00, 0x39, 0xD8], &mut rf);
    assert!(out.halted);
    assert_eq!(rf.get(Register::AX), 5);
    assert!(rf.get_flag(Flag::Zero));
}

#[test]
fn byte_arithmetic_masks_to_the_byte_register() {
    let mut rf = RegisterFile::new();
    rf.set(Register::AX, 0x12FE);
    // add al, 5: 0xFE + 5 = 0x103, stored byte is 0x03, AH untouched.
    let out = run_program(&[0x04, 0x05], &mut rf);
    assert!(out.halted);
    assert_eq!(rf.get(Register::AL), 0x03);
    assert_eq!(rf.get(Register::AH), 0x12);
    assert!(!rf.get_flag(Flag::Sign));
}

#[test]
fn jne_taken_moves_ip_back() {
    let mut rf = RegisterFile::new();
    // Zero flag clear: the branch is taken and ip ends at 2 - 4.
    let trie = opcode_trie();
    let prog = vec![0x75, 0xFC];
    let r = step(&prog, &trie, &mut rf);
    assert_eq!(r.map(|i| i.opcode), Ok(Opcode::Jne));
    assert_eq!(rf.ip, 0xFFFE);
}

#[test]
fn jne_not_taken_falls_through() {
    let mut rf = RegisterFile::new();
    rf.set_flags_from_result(0);
    let out = run_program(&[0x75, 0xFC], &mut rf);
    assert!(out.halted);
    assert_eq!(rf.ip, 2);
}

#[test]
fn other_jumps_decode_but_never_branch() {
    let mut rf = RegisterFile::new();
    let out = run_program(&[0x74, 0xFC, 0xE2, 0xFC], &mut rf);
    assert!(out.halted);
    assert_eq!(out.trace.len(), 2);
    assert_eq!(out.trace[0].opcode, Opcode::Je);
    assert_eq!(out.trace[1].opcode, Opcode::Loop);
    assert_eq!(rf.ip, 4);
}

#[test]
fn memory_destination_changes_nothing_but_ip() {
    let mut rf = RegisterFile::new();
    rf.set(Register::BX, 9);
    // mov [bx + si], bx; add [1000], word 12
    let out = run_program(&[0x89, 0x18, 0x81, 0x06, 0xE8, 0x03, 0x0C, 0x00], &mut rf);
    assert!(out.halted);
    assert_eq!(out.trace.len(), 2);
    assert_eq!(rf.get(Register::BX), 9);
    assert_eq!(rf.flags, 0);
    assert_eq!(rf.ip, 8);
}

#[test]
fn run_stops_at_first_bad_byte() {
    let mut rf = RegisterFile::new();
    let out = run_program(&[0xB8, 0x05, 0x00, 0xF4], &mut rf);
    assert!(!out.halted);
    assert_eq!(out.error, Some(DecodeError::UnknownOpcode));
    assert_eq!(out.trace.len(), 1);
    assert_eq!(rf.get(Register::AX), 5);
    assert_eq!(rf.ip, 3);
}

#[test]
fn run_reports_truncation_mid_stream() {
    let mut rf = RegisterFile::new();
    let out = run_program(&[0xB8, 0x05, 0x00, 0x89], &mut rf);
    assert_eq!(out.error, Some(DecodeError::TruncatedInstruction));
    assert_eq!(out.trace.len(), 1);
}

#[test]
fn run_budget_bounds_an_endless_loop() {
    let mut rf = RegisterFile::new();
    // jne -2 with the Zero flag clear jumps to itself forever.
    let trie = opcode_trie();
    let out = run(&vec![0x75, 0xFE], &trie, &mut rf, 10);
    assert!(!out.halted);
    assert_eq!(out.error, None);
    assert_eq!(out.trace.len(), 10);
    assert_eq!(rf.ip, 0);
}

#[test]
fn execute_applies_one_instruction() {
    let mut rf = RegisterFile::new();
    let trie = opcode_trie();
    let prog = vec![0xB8, 0x2A, 0x00];
    let i = decode(&prog, 0, &trie).unwrap();
    execute(&i, &mut rf);
    assert_eq!(rf.get(Register::AX), 42);
    assert_eq!(rf.ip, 3);
}

#[test]
fn reader_walks_the_buffer() {
    let mut r = Reader::new(vec![1, 2, 3, 4]);
    assert_eq!(r.peek(), Some(1));
    assert_eq!(r.next(), Some(1));
    assert_eq!(r.peek(), Some(2));
    assert_eq!(r.read_n(2), Some(vec![2, 3]));
    assert_eq!(r.read_n(2), None);
    assert_eq!(r.next(), Some(4));
    assert_eq!(r.next(), None);
    assert_eq!(r.peek(), None);
}

#[test]
fn end_to_end_program_trace_and_state() {
    let mut rf = RegisterFile::new();
    // mov ax, 5; mov ax, bx; add si, 2; sub ax, ax; jne -4
    let prog = vec![
        0xB8, 0x05, 0x00, 0x89, 0xD8, 0x83, 0xC6, 0x02, 0x29, 0xC0, 0x75, 0xFC,
    ];
    let out = run_program(&prog, &mut rf);
    assert!(out.halted);
    assert_eq!(out.error, None);
    let lines: Vec<String> = out.trace.iter().map(|i| instruction_text(i)).collect();
    assert_eq!(
        lines,
        vec![
            "mov ax, 5".to_string(),
            "mov ax, bx".to_string(),
            "add si, 2".to_string(),
            "sub ax, ax".to_string(),
            "jne -4".to_string(),
        ]
    );
    // bx was never written, so the second mov clears ax; sub ax, ax sets
    // the Zero flag, so the trailing jne falls through.
    assert_eq!(rf.get(Register::AX), 0);
    assert_eq!(rf.get(Register::SI), 2);
    assert!(rf.get_flag(Flag::Zero));
    assert_eq!(rf.ip, 12);
}
