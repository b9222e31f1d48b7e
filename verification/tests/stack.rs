use cr8::cr8::CR8;
use cr8::device::Latch;
use cr8::error::Error;
use cr8::mem::{STACK, STACK_END};
use cr8::reg::Register;

fn machine() -> CR8<Latch> {
    CR8::new()
}

#[test]
fn stack_region_is_fixed() {
    assert_eq!(STACK, 0xfc00);
    assert_eq!(STACK_END, 0xfeff);
}

#[test]
fn mov_push_pop_scenario() {
    // MOV A, 0x05; PUSH A; POP B
    let mut cr8 = machine();
    let initial = cr8.sp;
    assert_eq!(cr8.delegate([0x02, 0x00, 0x05, 0x00]), Ok(3));
    assert_eq!(cr8.delegate([0x10, 0x00, 0x00, 0x00]), Ok(2));
    assert_eq!(cr8.sp, initial + 1);
    assert_eq!(cr8.mem.get(initial + 1), Ok(5));
    assert_eq!(cr8.delegate([0x14, 0x01, 0x00, 0x00]), Ok(2));
    assert_eq!(cr8.reg[Register::B.index()], 5);
    assert_eq!(cr8.sp, initial);
    assert_eq!(cr8.mem.get(initial + 1), Ok(0));
}

#[test]
fn push_moves_up_and_stores() {
    let mut cr8 = machine();
    assert_eq!(cr8.push_imm8(0xaa), Ok(()));
    assert_eq!(cr8.sp, STACK + 1);
    assert_eq!(cr8.mem.get(STACK + 1), Ok(0xaa));
    cr8.mov_imm8(Register::D, 0xbb);
    assert_eq!(cr8.push_reg(Register::D), Ok(()));
    assert_eq!(cr8.sp, STACK + 2);
    assert_eq!(cr8.mem.get(STACK + 2), Ok(0xbb));
    assert_eq!(cr8.mem.get(STACK), Ok(0));
}

#[test]
fn pop_takes_the_top_and_zeroes_the_cell() {
    let mut cr8 = machine();
    assert_eq!(cr8.push_imm8(1), Ok(()));
    assert_eq!(cr8.push_imm8(2), Ok(()));
    assert_eq!(cr8.pop(Register::A), Ok(()));
    assert_eq!(cr8.reg[Register::A.index()], 2);
    assert_eq!(cr8.sp, STACK + 1);
    assert_eq!(cr8.mem.get(STACK + 2), Ok(0));
    assert_eq!(cr8.mem.get(STACK + 1), Ok(1));
}

#[test]
fn pushes_then_pops_come_back_in_reverse() {
    let mut cr8 = machine();
    let vals: Vec<u8> = (1..=200u8).collect();
    for v in &vals {
        assert_eq!(cr8.push_imm8(*v), Ok(()));
    }
    assert_eq!(cr8.sp, STACK + 200);
    for v in vals.iter().rev() {
        assert_eq!(cr8.pop(Register::C), Ok(()));
        assert_eq!(cr8.reg[Register::C.index()], *v);
    }
    assert_eq!(cr8.sp, STACK);
    for offset in 0..=201u16 {
        assert_eq!(cr8.mem.get(STACK + offset), Ok(0));
    }
}

#[test]
fn registers_are_restored_in_reverse_order() {
    let mut cr8 = machine();
    cr8.mov_imm8(Register::A, 11);
    cr8.mov_imm8(Register::B, 22);
    cr8.mov_imm8(Register::C, 33);
    for r in [Register::A, Register::B, Register::C] {
        assert_eq!(cr8.push_reg(r), Ok(()));
    }
    for r in [Register::A, Register::B, Register::C] {
        cr8.mov_imm8(r, 0xee);
    }
    for r in [Register::C, Register::B, Register::A] {
        assert_eq!(cr8.pop(r), Ok(()));
    }
    assert_eq!(cr8.reg, [11, 22, 33, 0, 0, 0, 0, 0]);
    assert_eq!(cr8.sp, STACK);
}

#[test]
fn push_at_the_end_of_the_stack_overflows() {
    let mut cr8 = machine();
    for _ in 0..(STACK_END - STACK) {
        assert_eq!(cr8.push_imm8(7), Ok(()));
    }
    assert_eq!(cr8.sp, STACK_END);
    assert_eq!(cr8.mem.get(STACK_END), Ok(7));
    assert_eq!(cr8.push_imm8(8), Err(Error::StackOverflow));
    assert_eq!(cr8.push_reg(Register::A), Err(Error::StackOverflow));
    assert_eq!(cr8.sp, STACK_END);
    assert_eq!(cr8.mem.get(STACK_END), Ok(7));
    assert_eq!(cr8.mem.get(STACK_END + 1), Ok(0));
    assert_eq!(cr8.delegate([0x11, 9, 0, 0]), Err(Error::StackOverflow));
    assert_eq!(cr8.sp, STACK_END);
}

#[test]
fn pop_of_the_empty_stack_underflows() {
    let mut cr8 = machine();
    cr8.mov_imm8(Register::A, 3);
    assert_eq!(cr8.pop(Register::A), Err(Error::StackUnderflow));
    assert_eq!(cr8.reg[Register::A.index()], 3);
    assert_eq!(cr8.sp, STACK);
    assert_eq!(cr8.delegate([0x14, 0, 0, 0]), Err(Error::StackUnderflow));
    assert_eq!(cr8.sp, STACK);
}

#[test]
fn stack_limits_are_reported_before_the_mode() {
    let mut cr8 = machine();
    // POP with two registers: the stack is empty, so that is what is said.
    assert_eq!(cr8.delegate([0x17, 0x10, 0, 0]), Err(Error::StackUnderflow));
    assert_eq!(cr8.push_imm8(1), Ok(()));
    assert_eq!(cr8.delegate([0x17, 0x10, 0, 0]), Err(Error::InvalidAddressingMode));
    assert_eq!(cr8.sp, STACK + 1);
    // PUSH with two registers.
    assert_eq!(cr8.delegate([0x13, 0x10, 0, 0]), Err(Error::InvalidAddressingMode));
    assert_eq!(cr8.sp, STACK + 1);
    cr8.sp = STACK_END;
    assert_eq!(cr8.delegate([0x13, 0x10, 0, 0]), Err(Error::StackOverflow));
    assert_eq!(cr8.sp, STACK_END);
}

#[test]
fn the_stack_is_the_same_under_every_bank() {
    let mut cr8 = machine();
    assert_eq!(cr8.mem.add_bank(0x4000), Some(1));
    assert_eq!(cr8.push_imm8(0x11), Ok(()));
    assert_eq!(cr8.select_bank(1), Ok(()));
    assert_eq!(cr8.push_imm8(0x22), Ok(()));
    assert_eq!(cr8.select_bank(0), Ok(()));
    assert_eq!(cr8.pop(Register::A), Ok(()));
    assert_eq!(cr8.select_bank(1), Ok(()));
    assert_eq!(cr8.pop(Register::B), Ok(()));
    assert_eq!(cr8.reg[Register::A.index()], 0x22);
    assert_eq!(cr8.reg[Register::B.index()], 0x11);
    assert_eq!(cr8.sp, STACK);
}

#[test]
fn a_stack_pointer_in_an_unbacked_window_fails_the_access() {
    let mut cr8 = machine();
    assert_eq!(cr8.mem.add_bank(4), Some(1));
    assert_eq!(cr8.select_bank(1), Ok(()));
    cr8.sp = 0x8003;
    assert_eq!(cr8.push_imm8(1), Err(Error::MemoryAccessError));
    assert_eq!(cr8.sp, 0x8003);
    cr8.sp = 0xfc05;
    cr8.reg[Register::A.index()] = 9;
    cr8.sp = 0x9000;
    assert_eq!(cr8.pop(Register::A), Err(Error::StackUnderflow));
    assert_eq!(cr8.reg[Register::A.index()], 9);
}
