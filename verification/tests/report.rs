use cr8::cr8::CR8;
use cr8::device::Latch;
use cr8::error::Error;
use cr8::reg::{Register, BORROW, CARRY, EQUAL, LESS};

#[test]
fn debug_of_a_new_machine() {
    let cr8: CR8<Latch> = CR8::new();
    let status = cr8.debug();
    assert_eq!((status.a, status.b, status.c, status.d, status.z), (0, 0, 0, 0, 0));
    assert_eq!(status.xy, 0);
    assert_eq!(status.at_xy, Ok(0));
    assert_eq!(status.depth, 0);
    assert_eq!(status.at_sp, Ok(0));
    assert!(status.devices.is_empty());
    assert!(!status.less && !status.equal && !status.carry && !status.borrow);
}

#[test]
fn debug_reports_registers_stack_devices_and_flags() {
    let mut cr8: CR8<Latch> = CR8::new();
    cr8.mov_imm8(Register::A, 1);
    cr8.mov_imm8(Register::B, 2);
    cr8.mov_imm8(Register::C, 3);
    cr8.mov_imm8(Register::D, 4);
    cr8.mov_imm8(Register::Z, 5);
    cr8.mov_imm8(Register::X, 0x00);
    cr8.mov_imm8(Register::Y, 0x30);
    assert_eq!(cr8.sw_hl(Register::C), Ok(()));
    assert_eq!(cr8.push_imm8(0x11), Ok(()));
    assert_eq!(cr8.push_imm8(0x22), Ok(()));
    assert_eq!(cr8.dev_add(String::from("keyboard"), Latch::new()), Some(0));
    assert_eq!(cr8.dev_add(String::from("display"), Latch::new()), Some(1));
    cr8.mov_imm8(Register::F, LESS | CARRY);
    let status = cr8.debug();
    assert_eq!((status.a, status.b, status.c, status.d, status.z), (1, 2, 3, 4, 5));
    assert_eq!(status.xy, 0x3000);
    assert_eq!(status.at_xy, Ok(3));
    assert_eq!(status.depth, 2);
    assert_eq!(status.at_sp, Ok(0x22));
    assert_eq!(status.devices, vec![String::from("keyboard"), String::from("display")]);
    assert!(status.less && !status.equal && status.carry && !status.borrow);
    cr8.mov_imm8(Register::F, EQUAL | BORROW);
    let status = cr8.debug();
    assert!(!status.less && status.equal && !status.carry && status.borrow);
}

#[test]
fn debug_reports_what_cannot_be_read() {
    let mut cr8: CR8<Latch> = CR8::new();
    assert_eq!(cr8.mem.add_bank(0), Some(1));
    assert_eq!(cr8.select_bank(1), Ok(()));
    cr8.mov_imm8(Register::Y, 0x80);
    let status = cr8.debug();
    assert_eq!(status.xy, 0x8000);
    assert_eq!(status.at_xy, Err(Error::MemoryAccessError));
    assert_eq!(status.at_sp, Ok(0));
}
