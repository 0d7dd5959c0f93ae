use um_core::dinst::{encode, encode_val, Op};
use um_core::machine::{Fault, Step, UM};

/// Runs a program to completion, feeding it `input` byte by byte and
/// collecting emitted bytes; returns the output stream and the final
/// (terminal) step event.
fn run(program: Vec<u32>, input: Vec<u8>) -> (Vec<u8>, Step) {
    let mut m = UM::new(program);
    let mut out: Vec<u8> = Vec::new();
    let mut inp = input.into_iter();
    loop {
        match m.step() {
            Step::Continue => {},
            Step::Output(b) => out.push(b),
            Step::Input => m.provide_input(inp.next()),
            s @ Step::Halted => return (out, s),
            s @ Step::Fault(_) => return (out, s),
        }
    }
}

fn halt() -> u32 {
    encode(Op::HALT, 0, 0, 0)
}

#[test]
fn scenario_output_h() {
    // LoadValue r0 <- 72 ('H'); Output r0; Halt.
    let program = vec![encode_val(0, 72), encode(Op::Output, 0, 0, 0), halt()];
    let (out, end) = run(program, vec![]);
    assert_eq!(out, vec![72]);
    assert_eq!(end, Step::Halted);
}

#[test]
fn scenario_map_unmap_reuses_identifier() {
    // MapSegment r1 <- length r2 (0); UnmapSegment r1; MapSegment again:
    // the identifier just freed comes back.
    let program = vec![
        encode(Op::MapSeg, 0, 1, 2),
        encode(Op::UnMap, 0, 0, 1),
        encode(Op::MapSeg, 0, 1, 2),
        halt(),
    ];
    let mut m = UM::new(program);
    assert_eq!(m.step(), Step::Continue);
    let first = m.read(1);
    assert_ne!(first, 0);
    assert_eq!(m.step(), Step::Continue);
    assert_eq!(m.step(), Step::Continue);
    let second = m.read(1);
    assert_eq!(first, second);
    assert_eq!(m.step(), Step::Halted);
}

#[test]
fn scenario_undefined_opcode_faults_before_any_mutation() {
    let program = vec![14u32 << 28, halt()];
    let mut m = UM::new(program);
    assert_eq!(m.step(), Step::Fault(Fault::DecodeFault));
    for r in 0..8u32 {
        assert_eq!(m.read(r), 0);
    }
    // The program counter did not advance either: the next fetch decodes
    // the same undefined word.
    assert_eq!(m.get_i(), 14u32 << 28);
}

#[test]
fn add_wraps_around() {
    // r0 := !(0 & 0) = 0xffff_ffff; r2 := 1; r3 := r0 + r2 = 0.
    let program = vec![
        encode_val(1, 0),
        encode(Op::NAND, 0, 1, 1),
        encode_val(2, 1),
        encode(Op::ADD, 3, 0, 2),
        halt(),
    ];
    let mut m = UM::new(program);
    while m.step() == Step::Continue {}
    assert_eq!(m.read(0), 0xffff_ffff);
    assert_eq!(m.read(3), 0);
}

#[test]
fn add_small_values() {
    let program = vec![
        encode_val(1, 1200), encode_val(2, 34), encode(Op::ADD, 3, 1, 2), halt(),
    ];
    let mut m = UM::new(program);
    while m.step() == Step::Continue {}
    assert_eq!(m.read(3), 1234);
}

#[test]
fn multiply_wraps_around() {
    // r0 := 0xffff_ffff; r3 := r0 * r0 = (2^32 - 1)^2 mod 2^32 = 1.
    let program = vec![
        encode_val(1, 0),
        encode(Op::NAND, 0, 1, 1),
        encode(Op::MULT, 3, 0, 0),
        halt(),
    ];
    let mut m = UM::new(program);
    while m.step() == Step::Continue {}
    assert_eq!(m.read(3), 1);
}

#[test]
fn multiply_small_values() {
    let program = vec![
        encode_val(1, 6), encode_val(2, 7), encode(Op::MULT, 3, 1, 2), halt(),
    ];
    let mut m = UM::new(program);
    while m.step() == Step::Continue {}
    assert_eq!(m.read(3), 42);
}

#[test]
fn divide_truncates() {
    let program = vec![
        encode_val(1, 7), encode_val(2, 2), encode(Op::DIV, 0, 1, 2), halt(),
    ];
    let mut m = UM::new(program);
    while m.step() == Step::Continue {}
    assert_eq!(m.read(0), 3);
}

#[test]
fn divide_by_zero_is_fatal() {
    let program = vec![encode_val(1, 7), encode(Op::DIV, 0, 1, 2), halt()];
    let (out, end) = run(program, vec![]);
    assert_eq!(out, vec![]);
    assert_eq!(end, Step::Fault(Fault::DivideByZero));
}

#[test]
fn conditional_move_zero_leaves_target() {
    // r0 := 9; r1 := 5; r2 stays 0; CMov r0 <- r1 if r2 != 0.
    let program = vec![
        encode_val(0, 9), encode_val(1, 5), encode(Op::CMov, 0, 1, 2), halt(),
    ];
    let mut m = UM::new(program);
    while m.step() == Step::Continue {}
    assert_eq!(m.read(0), 9);
}

#[test]
fn conditional_move_nonzero_moves() {
    let program = vec![
        encode_val(0, 9),
        encode_val(1, 5),
        encode_val(2, 1),
        encode(Op::CMov, 0, 1, 2),
        halt(),
    ];
    let mut m = UM::new(program);
    while m.step() == Step::Continue {}
    assert_eq!(m.read(0), 5);
}

#[test]
fn load_program_self_copy_jumps() {
    // r1 := 2; LoadProgram from segment r0 (= 0) jumping to r1: segment 0
    // is unchanged and execution resumes at the Halt word.
    let program = vec![encode_val(1, 2), encode(Op::LPro, 0, 0, 1), halt()];
    let mut m = UM::new(program);
    assert_eq!(m.step(), Step::Continue);
    assert_eq!(m.step(), Step::Continue);
    assert_eq!(m.memory.get(0, 0), Ok(encode_val(1, 2)));
    assert_eq!(m.memory.get(0, 1), Ok(encode(Op::LPro, 0, 0, 1)));
    assert_eq!(m.memory.get(0, 2), Ok(halt()));
    assert_eq!(m.step(), Step::Halted);
}

#[test]
fn load_program_runs_copied_segment() {
    // Build the Halt word 0x7000_0000 in r7, store it into a fresh
    // one-word segment, and transfer control to that segment.
    let program = vec![
        encode_val(5, 7),
        encode_val(6, 1 << 24),
        encode(Op::MULT, 7, 5, 6),
        encode_val(4, 16),
        encode(Op::MULT, 7, 7, 4),
        encode_val(2, 1),
        encode(Op::MapSeg, 0, 1, 2),
        encode(Op::Stor, 1, 3, 7),
        encode(Op::LPro, 0, 1, 3),
        14u32 << 28,
    ];
    let (out, end) = run(program, vec![]);
    assert_eq!(out, vec![]);
    assert_eq!(end, Step::Halted);
}

#[test]
fn load_program_unmapped_is_fatal() {
    let program = vec![encode_val(1, 5), encode(Op::LPro, 0, 1, 0), halt()];
    let (_, end) = run(program, vec![]);
    assert_eq!(end, Step::Fault(Fault::OutOfBounds));
}

#[test]
fn store_then_load_roundtrip() {
    // Map a two-word segment at r1; m[r1][0] := 77; r4 := m[r1][0].
    let program = vec![
        encode_val(2, 2),
        encode(Op::MapSeg, 0, 1, 2),
        encode_val(2, 77),
        encode(Op::Stor, 1, 3, 2),
        encode(Op::Load, 4, 1, 3),
        halt(),
    ];
    let mut m = UM::new(program);
    while m.step() == Step::Continue {}
    assert_eq!(m.read(4), 77);
}

#[test]
fn segmented_load_unmapped_is_fatal() {
    let program = vec![encode_val(1, 5), encode(Op::Load, 0, 1, 2), halt()];
    let (_, end) = run(program, vec![]);
    assert_eq!(end, Step::Fault(Fault::OutOfBounds));
}

#[test]
fn segmented_store_out_of_range_is_fatal() {
    // Segment 0 has 3 words; storing at offset 5 is out of bounds.
    let program = vec![encode_val(2, 5), encode(Op::Stor, 0, 2, 1), halt()];
    let (_, end) = run(program, vec![]);
    assert_eq!(end, Step::Fault(Fault::OutOfBounds));
}

#[test]
fn unmap_zero_is_fatal() {
    let program = vec![encode(Op::UnMap, 0, 0, 0), halt()];
    let (_, end) = run(program, vec![]);
    assert_eq!(end, Step::Fault(Fault::InvalidDeallocation));
}

#[test]
fn unmap_unmapped_is_fatal() {
    let program = vec![encode_val(1, 4), encode(Op::UnMap, 0, 0, 1), halt()];
    let (_, end) = run(program, vec![]);
    assert_eq!(end, Step::Fault(Fault::InvalidDeallocation));
}

#[test]
fn input_byte_lands_in_register() {
    let program = vec![
        encode(Op::Input, 0, 0, 0), encode(Op::Output, 0, 0, 0), halt(),
    ];
    let (out, end) = run(program, vec![65]);
    assert_eq!(out, vec![65]);
    assert_eq!(end, Step::Halted);
}

#[test]
fn input_end_of_stream_is_all_ones() {
    let program = vec![encode(Op::Input, 0, 0, 0), halt()];
    let mut m = UM::new(program);
    assert_eq!(m.step(), Step::Input);
    m.provide_input(None);
    assert_eq!(m.read(0), 0xffff_ffff);
    assert_eq!(m.step(), Step::Halted);
}

#[test]
fn output_above_byte_range_is_fatal() {
    // r0 := 0xffff_ffff, then Output r0 faults instead of truncating.
    let program = vec![
        encode_val(1, 0),
        encode(Op::NAND, 0, 1, 1),
        encode(Op::Output, 0, 0, 0),
        halt(),
    ];
    let (out, end) = run(program, vec![]);
    assert_eq!(out, vec![]);
    assert_eq!(end, Step::Fault(Fault::InvalidOutput));
}

#[test]
fn empty_program_faults_on_first_fetch() {
    let mut m = UM::new(vec![]);
    assert_eq!(m.step(), Step::Fault(Fault::OutOfBounds));
}

#[test]
fn running_off_the_end_is_fatal() {
    let program = vec![encode_val(0, 1)];
    let (_, end) = run(program, vec![]);
    assert_eq!(end, Step::Fault(Fault::OutOfBounds));
}

#[test]
fn machine_allocate_and_deallocate_delegate() {
    let mut m = UM::new(vec![0]);
    let id = m.allocate(3);
    assert_ne!(id, 0);
    assert_eq!(m.get(id as u32, 0), Ok(0));
    assert_eq!(m.get(id as u32, 3), Err(Fault::OutOfBounds));
    assert_eq!(m.deallocate(id), Ok(()));
    assert_eq!(m.deallocate(id), Err(Fault::InvalidDeallocation));
    assert_eq!(m.deallocate(0), Err(Fault::InvalidDeallocation));
}

#[test]
fn write_and_read_registers() {
    let mut m = UM::new(vec![0]);
    for r in 0..8u32 {
        assert_eq!(m.read(r), 0);
    }
    m.write(123, 5);
    assert_eq!(m.read(5), 123);
    assert_eq!(m.read(4), 0);
}

#[test]
fn get_i_reads_the_current_word() {
    let program = vec![encode_val(0, 42), halt()];
    let m = UM::new(program);
    assert_eq!(m.get_i(), encode_val(0, 42));
}
