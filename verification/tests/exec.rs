use cr8::cr8::CR8;
use cr8::device::Latch;
use cr8::error::Error;
use cr8::inst::registers_valid;
use cr8::mem::STACK;
use cr8::op::{encode, AddressingMode, Operation};
use cr8::reg::{Register, BORROW, CARRY, EQUAL, LESS};

const R1I0: AddressingMode = AddressingMode::R1I0;
const R0I1: AddressingMode = AddressingMode::R0I1;
const R1I1: AddressingMode = AddressingMode::R1I1;
const R2I0: AddressingMode = AddressingMode::R2I0;

fn machine() -> CR8<Latch> {
    CR8::new()
}

fn get(cr8: &CR8<Latch>, r: Register) -> u8 {
    cr8.reg[r.index()]
}

/// The operand byte that names `first` in its low and `second` in its high
/// four bits.
fn pair(first: Register, second: Register) -> u8 {
    ((second.index() as u8) << 4) | first.index() as u8
}

fn run(
    cr8: &mut CR8<Latch>,
    op: Operation,
    mode: AddressingMode,
    rest: [u8; 3],
) -> Result<u8, Error> {
    let bytes = [encode(op, mode), rest[0], rest[1], rest[2]];
    assert!(registers_valid(bytes));
    cr8.delegate(bytes)
}

#[test]
fn registers_valid_looks_at_what_the_mode_reads() {
    // MOV with an immediate reads the low four bits only.
    assert!(registers_valid([0x02, 0xf7, 0, 0]));
    assert!(!registers_valid([0x02, 0x08, 0, 0]));
    // MOV between registers reads both.
    assert!(registers_valid([0x03, 0x77, 0, 0]));
    assert!(!registers_valid([0x03, 0x80, 0, 0]));
    assert!(!registers_valid([0x03, 0x0f, 0, 0]));
    // PUSH of an immediate reads none.
    assert!(registers_valid([0x11, 0xff, 0, 0]));
    // What does not decode reads none.
    assert!(registers_valid([0xff, 0xff, 0, 0]));
    assert!(registers_valid([0x00, 0xff, 0, 0]));
}

#[test]
fn an_unmapped_operation_fails_and_changes_nothing() {
    let mut cr8 = machine();
    cr8.mov_imm8(Register::A, 1);
    for code in 15..=63u8 {
        for mode in 0..=3u8 {
            assert_eq!(cr8.delegate([(code << 2) | mode, 0, 0, 0]), Err(Error::InvalidOperation));
        }
    }
    assert_eq!(cr8.reg, [1, 0, 0, 0, 0, 0, 0, 0]);
    assert_eq!(cr8.pc, 0);
    assert_eq!(cr8.sp, STACK);
}

#[test]
fn an_unsupported_mode_fails_and_changes_nothing() {
    let ops = [
        (Operation::MOV, [R1I0, R0I1]),
        (Operation::LW, [R0I1, R2I0]),
        (Operation::SW, [R0I1, R2I0]),
        (Operation::JNZ, [R1I1, R2I0]),
        (Operation::IN, [R1I0, R0I1]),
        (Operation::OUT, [R1I0, R0I1]),
        (Operation::ADC, [R1I0, R0I1]),
        (Operation::SBB, [R1I0, R0I1]),
        (Operation::CMP, [R1I0, R0I1]),
        (Operation::AND, [R1I0, R0I1]),
        (Operation::OR, [R1I0, R0I1]),
        (Operation::NOR, [R1I0, R0I1]),
        (Operation::BANK, [R1I1, R2I0]),
        (Operation::PUSH, [R1I1, R2I0]),
    ];
    let mut cr8 = machine();
    cr8.mov_imm8(Register::A, 0x55);
    cr8.mov_imm8(Register::F, 0x0f);
    for (op, modes) in ops {
        for mode in modes {
            assert_eq!(
                run(&mut cr8, op, mode, [0, 1, 2]),
                Err(Error::InvalidAddressingMode),
                "{:?} {:?}",
                op,
                mode
            );
        }
    }
    assert_eq!(cr8.reg, [0x55, 0, 0, 0, 0, 0, 0, 0x0f]);
    assert_eq!(cr8.pc, 0);
    assert_eq!(cr8.sp, STACK);
    assert_eq!(cr8.mem.bank(), 0);
}

#[test]
fn mov_lengths_and_effects() {
    let mut cr8 = machine();
    assert_eq!(run(&mut cr8, Operation::MOV, R1I1, [0x02, 0x7f, 0]), Ok(3));
    assert_eq!(get(&cr8, Register::C), 0x7f);
    assert_eq!(run(&mut cr8, Operation::MOV, R2I0, [pair(Register::Z, Register::C), 0, 0]), Ok(2));
    assert_eq!(get(&cr8, Register::Z), 0x7f);
    // The upper four bits are ignored where one register is named.
    assert_eq!(run(&mut cr8, Operation::MOV, R1I1, [0xf1, 0x33, 0]), Ok(3));
    assert_eq!(get(&cr8, Register::B), 0x33);
}

#[test]
fn lw_and_sw_lengths_and_effects() {
    let mut cr8 = machine();
    cr8.mov_imm8(Register::A, 0xa1);
    assert_eq!(run(&mut cr8, Operation::SW, R1I1, [0x00, 0x34, 0x12]), Ok(4));
    assert_eq!(cr8.mem.get(0x1234), Ok(0xa1));
    assert_eq!(run(&mut cr8, Operation::LW, R1I1, [0x01, 0x34, 0x12]), Ok(4));
    assert_eq!(get(&cr8, Register::B), 0xa1);
    cr8.mov_imm8(Register::X, 0x10);
    cr8.mov_imm8(Register::Y, 0x40);
    cr8.mov_imm8(Register::C, 0xc3);
    assert_eq!(run(&mut cr8, Operation::SW, R1I0, [0x02, 0, 0]), Ok(2));
    assert_eq!(cr8.mem.get(0x4010), Ok(0xc3));
    assert_eq!(run(&mut cr8, Operation::LW, R1I0, [0x03, 0, 0]), Ok(2));
    assert_eq!(get(&cr8, Register::D), 0xc3);
}

#[test]
fn lw_and_sw_report_an_unbacked_address() {
    let mut cr8 = machine();
    assert_eq!(cr8.mem.add_bank(2), Some(1));
    assert_eq!(run(&mut cr8, Operation::BANK, R0I1, [1, 0, 0]), Ok(2));
    cr8.mov_imm8(Register::A, 7);
    let unbacked = [0x00, 0x02, 0x80];
    assert_eq!(run(&mut cr8, Operation::SW, R1I1, unbacked), Err(Error::MemoryAccessError));
    assert_eq!(run(&mut cr8, Operation::LW, R1I1, unbacked), Err(Error::MemoryAccessError));
    assert_eq!(get(&cr8, Register::A), 7);
    assert_eq!(run(&mut cr8, Operation::SW, R1I1, [0x00, 0x01, 0x80]), Ok(4));
    assert_eq!(run(&mut cr8, Operation::LW, R1I1, [0x01, 0x01, 0x80]), Ok(4));
    assert_eq!(get(&cr8, Register::B), 7);
}

#[test]
fn push_and_pop_lengths_and_effects() {
    let mut cr8 = machine();
    assert_eq!(run(&mut cr8, Operation::PUSH, R0I1, [0xfe, 0, 0]), Ok(2));
    cr8.mov_imm8(Register::D, 0x0d);
    assert_eq!(run(&mut cr8, Operation::PUSH, R1I0, [0x03, 0, 0]), Ok(2));
    assert_eq!(cr8.sp, STACK + 2);
    assert_eq!(run(&mut cr8, Operation::POP, R1I0, [0x00, 0, 0]), Ok(2));
    assert_eq!(run(&mut cr8, Operation::POP, R1I0, [0x01, 0, 0]), Ok(2));
    assert_eq!(get(&cr8, Register::A), 0x0d);
    assert_eq!(get(&cr8, Register::B), 0xfe);
    assert_eq!(cr8.sp, STACK);
    assert_eq!(run(&mut cr8, Operation::POP, R1I0, [0x00, 0, 0]), Err(Error::StackUnderflow));
}

#[test]
fn jnz_taken_has_length_zero() {
    let mut cr8 = machine();
    cr8.mov_imm8(Register::X, 0xcd);
    cr8.mov_imm8(Register::Y, 0xab);
    cr8.mov_imm8(Register::A, 1);
    cr8.pc = 0x0100;
    assert_eq!(run(&mut cr8, Operation::JNZ, R1I0, [0x00, 0, 0]), Ok(0));
    assert_eq!(cr8.pc, 0xabcd);
    cr8.pc = 0x0100;
    assert_eq!(run(&mut cr8, Operation::JNZ, R0I1, [0x00, 0, 0]), Ok(0));
    assert_eq!(cr8.pc, 0xabcd);
    cr8.pc = 0x0100;
    cr8.mov_imm8(Register::A, 0xff);
    assert_eq!(run(&mut cr8, Operation::JNZ, R1I0, [0x00, 0, 0]), Ok(0));
    assert_eq!(cr8.pc, 0xabcd);
}

#[test]
fn jnz_not_taken_has_the_length_of_the_instruction() {
    let mut cr8 = machine();
    cr8.mov_imm8(Register::X, 0xcd);
    cr8.mov_imm8(Register::Y, 0xab);
    cr8.pc = 0x0100;
    assert_eq!(run(&mut cr8, Operation::JNZ, R1I0, [0x00, 0, 0]), Ok(2));
    assert_eq!(cr8.pc, 0x0100);
    assert_eq!(cr8.reg, [0, 0, 0, 0, 0, 0xcd, 0xab, 0]);
}

#[test]
fn in_and_out_lengths_and_effects() {
    let mut cr8 = machine();
    assert_eq!(cr8.dev_add(String::from("latch"), Latch::new()), Some(0));
    assert_eq!(cr8.dev_add(String::from("other"), Latch::new()), Some(1));
    cr8.mov_imm8(Register::A, 0x61);
    assert_eq!(run(&mut cr8, Operation::OUT, R1I1, [0x00, 1, 0]), Ok(3));
    assert_eq!(run(&mut cr8, Operation::IN, R1I1, [0x01, 1, 0]), Ok(3));
    assert_eq!(get(&cr8, Register::B), 0x61);
    cr8.mov_imm8(Register::Z, 1);
    cr8.mov_imm8(Register::A, 0x62);
    assert_eq!(run(&mut cr8, Operation::OUT, R2I0, [pair(Register::A, Register::Z), 0, 0]), Ok(2));
    assert_eq!(run(&mut cr8, Operation::IN, R2I0, [pair(Register::C, Register::Z), 0, 0]), Ok(2));
    assert_eq!(get(&cr8, Register::C), 0x62);
    assert_eq!(run(&mut cr8, Operation::IN, R1I1, [0x03, 0, 0]), Ok(3));
    assert_eq!(get(&cr8, Register::D), 0);
    assert_eq!(run(&mut cr8, Operation::IN, R1I1, [0x03, 9, 0]), Err(Error::DeviceNotPresent));
    assert_eq!(run(&mut cr8, Operation::OUT, R1I1, [0x03, 9, 0]), Err(Error::DeviceNotPresent));
    assert!(cr8.dev_rm(1).is_ok());
    assert_eq!(run(&mut cr8, Operation::IN, R1I1, [0x01, 1, 0]), Err(Error::DeviceNotPresent));
    assert_eq!(run(&mut cr8, Operation::OUT, R1I1, [0x00, 1, 0]), Err(Error::DeviceNotPresent));
    assert_eq!(get(&cr8, Register::B), 0x61);
}

#[test]
fn arithmetic_lengths_and_effects() {
    let mut cr8 = machine();
    cr8.mov_imm8(Register::A, 250);
    assert_eq!(run(&mut cr8, Operation::ADC, R1I1, [0x00, 10, 0]), Ok(3));
    assert_eq!(get(&cr8, Register::A), 4);
    assert_eq!(get(&cr8, Register::F), CARRY);
    cr8.mov_imm8(Register::B, 1);
    assert_eq!(run(&mut cr8, Operation::ADC, R2I0, [pair(Register::A, Register::B), 0, 0]), Ok(2));
    assert_eq!(get(&cr8, Register::A), 6);
    assert_eq!(get(&cr8, Register::F), 0);
    assert_eq!(run(&mut cr8, Operation::SBB, R1I1, [0x00, 7, 0]), Ok(3));
    assert_eq!(get(&cr8, Register::A), 255);
    assert_eq!(get(&cr8, Register::F), BORROW);
    assert_eq!(run(&mut cr8, Operation::SBB, R2I0, [pair(Register::A, Register::B), 0, 0]), Ok(2));
    assert_eq!(get(&cr8, Register::A), 253);
    assert_eq!(get(&cr8, Register::F), 0);
}

#[test]
fn compare_lengths_and_effects() {
    let mut cr8 = machine();
    cr8.mov_imm8(Register::A, 9);
    cr8.mov_imm8(Register::B, 10);
    assert_eq!(run(&mut cr8, Operation::CMP, R1I1, [0x00, 9, 0]), Ok(3));
    assert_eq!(get(&cr8, Register::F), EQUAL);
    assert_eq!(run(&mut cr8, Operation::CMP, R2I0, [pair(Register::A, Register::B), 0, 0]), Ok(2));
    assert_eq!(get(&cr8, Register::F), LESS);
    assert_eq!(run(&mut cr8, Operation::CMP, R2I0, [pair(Register::B, Register::A), 0, 0]), Ok(2));
    assert_eq!(get(&cr8, Register::F), 0);
    assert_eq!(get(&cr8, Register::A), 9);
    assert_eq!(get(&cr8, Register::B), 10);
}

#[test]
fn logic_lengths_and_effects() {
    let mut cr8 = machine();
    cr8.mov_imm8(Register::A, 0b0110_0110);
    cr8.mov_imm8(Register::B, 0b0000_1111);
    assert_eq!(run(&mut cr8, Operation::AND, R1I1, [0x00, 0b1111_0000, 0]), Ok(3));
    assert_eq!(get(&cr8, Register::A), 0b0110_0000);
    assert_eq!(run(&mut cr8, Operation::OR, R2I0, [pair(Register::A, Register::B), 0, 0]), Ok(2));
    assert_eq!(get(&cr8, Register::A), 0b0110_1111);
    assert_eq!(run(&mut cr8, Operation::NOR, R1I1, [0x00, 0b1000_0000, 0]), Ok(3));
    assert_eq!(get(&cr8, Register::A), 0b0001_0000);
    assert_eq!(run(&mut cr8, Operation::NOR, R2I0, [pair(Register::B, Register::A), 0, 0]), Ok(2));
    assert_eq!(get(&cr8, Register::B), 0b1110_0000);
    assert_eq!(run(&mut cr8, Operation::AND, R2I0, [pair(Register::B, Register::A), 0, 0]), Ok(2));
    assert_eq!(get(&cr8, Register::B), 0);
    assert_eq!(run(&mut cr8, Operation::OR, R1I1, [0x01, 0x81, 0]), Ok(3));
    assert_eq!(get(&cr8, Register::B), 0x81);
}

#[test]
fn bank_takes_the_registers_value_or_the_immediate() {
    let mut cr8 = machine();
    assert_eq!(cr8.mem.add_bank(8), Some(1));
    assert_eq!(cr8.mem.add_bank(8), Some(2));
    assert_eq!(run(&mut cr8, Operation::BANK, R0I1, [2, 0, 0]), Ok(2));
    assert_eq!(cr8.mem.bank(), 2);
    cr8.mov_imm8(Register::D, 1);
    assert_eq!(run(&mut cr8, Operation::BANK, R1I0, [0x03, 0, 0]), Ok(2));
    assert_eq!(cr8.mem.bank(), 1);
    assert_eq!(run(&mut cr8, Operation::BANK, R1I0, [0x00, 0, 0]), Ok(2));
    assert_eq!(cr8.mem.bank(), 0);
    assert_eq!(run(&mut cr8, Operation::BANK, R0I1, [3, 0, 0]), Err(Error::MemoryAccessError));
    assert_eq!(cr8.mem.bank(), 0);
    cr8.mov_imm8(Register::D, 200);
    assert_eq!(run(&mut cr8, Operation::BANK, R1I0, [0x03, 0, 0]), Err(Error::MemoryAccessError));
    assert_eq!(cr8.mem.bank(), 0);
}

#[test]
fn bank_switch_through_instructions_isolates_the_window() {
    let mut cr8 = machine();
    assert_eq!(cr8.mem.add_bank(0x4000), Some(1));
    cr8.mov_imm8(Register::A, 0x99);
    assert_eq!(run(&mut cr8, Operation::BANK, R0I1, [1, 0, 0]), Ok(2));
    assert_eq!(run(&mut cr8, Operation::SW, R1I1, [0x00, 0x00, 0x90]), Ok(4));
    assert_eq!(run(&mut cr8, Operation::BANK, R0I1, [0, 0, 0]), Ok(2));
    assert_eq!(run(&mut cr8, Operation::LW, R1I1, [0x01, 0x00, 0x90]), Ok(4));
    assert_eq!(get(&cr8, Register::B), 0);
    assert_eq!(run(&mut cr8, Operation::BANK, R0I1, [1, 0, 0]), Ok(2));
    assert_eq!(run(&mut cr8, Operation::LW, R1I1, [0x01, 0x00, 0x90]), Ok(4));
    assert_eq!(get(&cr8, Register::B), 0x99);
}

#[test]
fn a_small_program_counts_down() {
    // A = 3; loop: A -= 1; compare; branch back while A != 0.
    let mut cr8 = machine();
    let program: Vec<u8> = vec![
        encode(Operation::MOV, R1I1), 0x00, 3,              // 0: MOV A, 3
        encode(Operation::MOV, R1I1), 0x05, 9,              // 3: MOV X, 9
        encode(Operation::MOV, R1I1), 0x06, 0,              // 6: MOV Y, 0
        encode(Operation::CMP, R1I1), 0x07, 0,              // 9: CMP F, 0 (clears the flags)
        encode(Operation::SBB, R1I1), 0x00, 1,              // 12: SBB A, 1
        encode(Operation::ADC, R1I1), 0x01, 1,              // 15: ADC B, 1
        encode(Operation::JNZ, R1I0), 0x00,                 // 18: JNZ A
        encode(Operation::MOV, R1I1), 0x03, 0xdd,           // 20: MOV D, 0xdd
    ];
    assert_eq!(cr8.mem.load(&program), Ok(()));
    let mut steps = 0;
    while cr8.pc < 23 {
        let bytes = cr8.fetch().unwrap();
        assert!(registers_valid(bytes));
        let len = cr8.delegate(bytes).unwrap();
        for _ in 0..len {
            cr8.tick_pc();
        }
        steps += 1;
        assert!(steps < 100);
    }
    assert_eq!(get(&cr8, Register::A), 0);
    assert_eq!(get(&cr8, Register::B), 3);
    assert_eq!(get(&cr8, Register::D), 0xdd);
    assert_eq!(cr8.pc, 23);
    assert_eq!(steps, 3 + 3 * 4 + 1);
}

#[test]
fn lengths_follow_the_table() {
    let table = [
        (Operation::MOV, [0, 0, 3, 2]),
        (Operation::JNZ, [2, 1, 0, 0]),
        (Operation::LW, [2, 0, 4, 0]),
        (Operation::SW, [2, 0, 4, 0]),
        (Operation::PUSH, [2, 2, 0, 0]),
        (Operation::POP, [2, 0, 0, 0]),
        (Operation::IN, [0, 0, 3, 2]),
        (Operation::OUT, [0, 0, 3, 2]),
        (Operation::ADC, [0, 0, 3, 2]),
        (Operation::SBB, [0, 0, 3, 2]),
        (Operation::CMP, [0, 0, 3, 2]),
        (Operation::AND, [0, 0, 3, 2]),
        (Operation::OR, [0, 0, 3, 2]),
        (Operation::NOR, [0, 0, 3, 2]),
        (Operation::BANK, [2, 2, 0, 0]),
    ];
    for (op, lengths) in table {
        for (mode, expected) in [R1I0, R0I1, R1I1, R2I0].into_iter().zip(lengths) {
            assert_eq!(op.length(mode), expected, "{:?} {:?}", op, mode);
            assert_eq!(op.accepts(mode), expected != 0);
        }
    }
}

#[test]
fn what_succeeds_reports_the_length_of_the_table() {
    for code in 0..=14u8 {
        for mode in [R1I0, R0I1, R1I1, R2I0] {
            let op = Operation::from_code(code).unwrap();
            let mut cr8 = machine();
            assert_eq!(cr8.dev_add(String::from("latch"), Latch::new()), Some(0));
            assert_eq!(cr8.push_imm8(1), Ok(()));
            let result = run(&mut cr8, op, mode, [0, 0, 0]);
            if !op.accepts(mode) {
                assert_eq!(result, Err(Error::InvalidAddressingMode));
            } else if op == Operation::JNZ && mode == R0I1 {
                assert_eq!(result, Ok(0));
            } else {
                assert_eq!(result, Ok(op.length(mode)), "{:?} {:?}", op, mode);
            }
        }
    }
}

#[test]
fn flags_stay_until_they_are_written() {
    let mut cr8 = machine();
    assert_eq!(cr8.dev_add(String::from("latch"), Latch::new()), Some(0));
    cr8.mov_imm8(Register::F, 0b1010_0101);
    let program: [(Operation, AddressingMode, [u8; 3]); 12] = [
        (Operation::MOV, R1I1, [0x00, 0x12, 0]),
        (Operation::MOV, R2I0, [0x01, 0, 0]),
        (Operation::SW, R1I1, [0x00, 0x00, 0x10]),
        (Operation::LW, R1I1, [0x02, 0x00, 0x10]),
        (Operation::PUSH, R1I0, [0x07, 0, 0]),
        (Operation::POP, R1I0, [0x03, 0, 0]),
        (Operation::OUT, R1I1, [0x07, 0, 0]),
        (Operation::IN, R1I1, [0x04, 0, 0]),
        (Operation::AND, R1I1, [0x00, 0x0f, 0]),
        (Operation::OR, R1I1, [0x00, 0xf0, 0]),
        (Operation::NOR, R1I1, [0x00, 0x01, 0]),
        (Operation::BANK, R0I1, [0, 0, 0]),
    ];
    for (op, mode, rest) in program {
        assert!(run(&mut cr8, op, mode, rest).is_ok(), "{:?} {:?}", op, mode);
        assert_eq!(get(&cr8, Register::F), 0b1010_0101, "{:?} {:?}", op, mode);
    }
    assert_eq!(get(&cr8, Register::D), 0b1010_0101);
    assert_eq!(get(&cr8, Register::Z), 0b1010_0101);
    assert_eq!(run(&mut cr8, Operation::JNZ, R1I0, [0x06, 0, 0]), Ok(2));
    assert_eq!(get(&cr8, Register::F), 0b1010_0101);
    assert_eq!(run(&mut cr8, Operation::MOV, R1I1, [0x07, 0x01, 0]), Ok(3));
    assert_eq!(get(&cr8, Register::F), 0x01);
}

#[test]
fn operand_bytes_name_registers_by_nibble() {
    assert_eq!(pair(Register::C, Register::Z), 0x42);
    let mut cr8 = machine();
    cr8.mov_imm8(Register::Z, 0x99);
    // The low four bits name the register that is filled, the high four
    // bits the one that is read.
    assert_eq!(run(&mut cr8, Operation::MOV, R2I0, [0x42, 0, 0]), Ok(2));
    assert_eq!(cr8.reg, [0, 0, 0x99, 0, 0x99, 0, 0, 0]);
    assert_eq!(run(&mut cr8, Operation::MOV, R2I0, [0x27, 0, 0]), Ok(2));
    assert_eq!(cr8.reg, [0, 0, 0x99, 0, 0x99, 0, 0, 0x99]);
}

#[test]
fn fetch_reads_the_window_at_the_program_counter() {
    let mut cr8 = machine();
    assert_eq!(cr8.mem.load(&vec![0x10, 0x20, 0x30, 0x40, 0x50]), Ok(()));
    assert_eq!(cr8.fetch(), Ok([0x10, 0x20, 0x30, 0x40]));
    cr8.pc = 1;
    assert_eq!(cr8.fetch(), Ok([0x20, 0x30, 0x40, 0x50]));
    cr8.pc = 3;
    assert_eq!(cr8.fetch(), Ok([0x40, 0x50, 0, 0]));
}

#[test]
fn fetch_at_the_end_of_the_memory_fills_with_zero() {
    let mut cr8 = machine();
    assert_eq!(cr8.mem.set(0xfffd, 1), Ok(()));
    assert_eq!(cr8.mem.set(0xfffe, 2), Ok(()));
    assert_eq!(cr8.mem.set(0xffff, 3), Ok(()));
    assert_eq!(cr8.mem.set(0x0000, 9), Ok(()));
    cr8.pc = 0xfffc;
    assert_eq!(cr8.fetch(), Ok([0, 1, 2, 3]));
    cr8.pc = 0xfffe;
    assert_eq!(cr8.fetch(), Ok([2, 3, 0, 0]));
    cr8.pc = 0xffff;
    assert_eq!(cr8.fetch(), Ok([3, 0, 0, 0]));
}

#[test]
fn fetch_goes_through_the_active_bank() {
    let mut cr8 = machine();
    assert_eq!(cr8.mem.add_bank(2), Some(1));
    assert_eq!(cr8.mem.set(0x7fff, 0x0a), Ok(()));
    assert_eq!(cr8.mem.set(0x8000, 0x0b), Ok(()));
    assert_eq!(cr8.mem.set(0x8002, 0x0c), Ok(()));
    assert_eq!(cr8.select_bank(1), Ok(()));
    assert_eq!(cr8.mem.set(0x8000, 0x1b), Ok(()));
    assert_eq!(cr8.mem.set(0x8001, 0x1c), Ok(()));
    cr8.pc = 0x7fff;
    assert_eq!(cr8.fetch(), Ok([0x0a, 0x1b, 0x1c, 0]));
    cr8.pc = 0x8001;
    assert_eq!(cr8.fetch(), Ok([0x1c, 0, 0, 0]));
    cr8.pc = 0x8002;
    assert_eq!(cr8.fetch(), Err(Error::MemoryAccessError));
    assert_eq!(cr8.select_bank(0), Ok(()));
    assert_eq!(cr8.fetch(), Ok([0x0c, 0, 0, 0]));
}
