//! The core: registers, program counter and stack pointer, with the memory
//! and the device bus it works on, and one function for each form of each
//! operation.

use vstd::prelude::*;
use crate::device::{Device, Devices, Snapshot};
use crate::error::Error;
use crate::machine::{halves, joined, Machine};
use crate::mem::{Mem, STACK, STACK_END};
use crate::reg::{Register, BORROW, CARRY, EQUAL, LESS};

verus! {

/// The clock speed of a new machine.
pub const DEFAULT_SPEED: u64 = 500;

/// Joins a low and a high byte into a 16-bit value.
pub fn join(lh: (u8, u8)) -> (hl: u16)
    ensures
        hl == joined(lh.0, lh.1),
        halves(hl) == lh,
{
    let l: u16 = lh.0 as u16;
    let h: u16 = lh.1 as u16;
    let hl: u16 = (h << 8) | l;
    assert(hl == l + 256 * h) by (bit_vector)
        requires
            l < 256,
            h < 256,
            hl == (h << 8) | l,
    ;
    hl
}

/// Splits a 16-bit value into its low and its high byte.
pub fn split(hl: u16) -> (lh: (u8, u8))
    ensures
        lh == halves(hl),
        joined(lh.0, lh.1) == hl,
{
    let l: u16 = hl & 0xff;
    let h: u16 = hl >> 8;
    assert(l == hl % 256 && h == hl / 256 && h < 256) by (bit_vector)
        requires
            l == hl & 0xff,
            h == hl >> 8,
    ;
    (l as u8, h as u8)
}

/// The difference of two bytes, as a signed 16-bit value.
fn difference(a: u8, b: u8) -> (diff: i16)
    ensures
        diff == a - b,
{
    a as i16 - b as i16
}

/// The sum of two bytes and a carry of 0 or 1, modulo 256, and whether the
/// sum passed 255.
fn carrying_sum(a: u8, b: u8, carry: u8) -> (r: (u8, bool))
    requires
        carry <= 1,
    ensures
        r.0 == (a + b + carry) % 256,
        r.1 == (a + b + carry >= 256),
{
    let sum: u16 = a as u16 + b as u16 + carry as u16;
    if sum >= 256 {
        ((sum - 256) as u8, true)
    } else {
        (sum as u8, false)
    }
}

/// The difference of two bytes less a borrow of 0 or 1, modulo 256, and
/// whether the difference fell below 0.
fn borrowing_difference(a: u8, b: u8, borrow: u8) -> (r: (u8, bool))
    requires
        borrow <= 1,
    ensures
        r.0 == (a - b - borrow) % 256,
        r.1 == (a - b - borrow < 0),
{
    let diff: i16 = a as i16 - b as i16 - borrow as i16;
    if diff < 0 {
        ((diff + 256) as u8, true)
    } else {
        (diff as u8, false)
    }
}

/// What `debug` reports of a machine.
pub struct Status {
    /// Register A.
    pub a: u8,
    /// Register B.
    pub b: u8,
    /// Register C.
    pub c: u8,
    /// Register D.
    pub d: u8,
    /// Register Z.
    pub z: u8,
    /// The address in the pair X, Y.
    pub xy: u16,
    /// The byte at that address, or why it cannot be read.
    pub at_xy: Result<u8, Error>,
    /// The number of bytes on the stack.
    pub depth: u16,
    /// The byte at the stack pointer, or why it cannot be read.
    pub at_sp: Result<u8, Error>,
    /// The names of the registered devices, in registration order.
    pub devices: Vec<String>,
    /// The less flag.
    pub less: bool,
    /// The equal flag.
    pub equal: bool,
    /// The carry flag.
    pub carry: bool,
    /// The borrow flag.
    pub borrow: bool,
}

/// One CR8 machine.
pub struct CR8<D: Device> {
    /// The eight registers, by index.
    pub reg: [u8; 8],
    /// The program counter.
    pub pc: u16,
    /// The stack pointer.
    pub sp: u16,
    /// The memory.
    pub mem: Mem,
    /// The device bus.
    pub dev: Devices<D>,
    /// The clock speed.
    pub speed: u64,
}

impl<D: Device> View for CR8<D> {
    type V = Machine<D>;

    open spec fn view(&self) -> Machine<D> {
        Machine {
            reg: self.reg@,
            pc: self.pc,
            sp: self.sp,
            mem: self.mem@,
            dev: self.dev@,
            speed: self.speed,
        }
    }
}

impl<D: Device> CR8<D> {
    /// A machine at rest: registers and memory zeroed, no device, the
    /// program counter at 0 and the stack empty.
    pub fn new() -> (cr8: Self)
        ensures
            cr8@.wf(),
            cr8@.reg == Seq::new(8, |i: int| 0u8),
            cr8@.pc == 0,
            cr8@.sp == STACK,
            cr8@.mem.active == 0,
            cr8@.mem.banks.len() == 0,
            cr8@.mem.base == Seq::new(65536, |i: int| 0u8),
            cr8@.dev.slots.len() == 0,
            cr8@.dev.next == 0,
            cr8@.speed == DEFAULT_SPEED,
    {
        let cr8 = CR8 {
            reg: [0u8; 8],
            pc: 0,
            sp: STACK,
            mem: Mem::new(),
            dev: Devices::new(),
            speed: DEFAULT_SPEED,
        };
        assert(cr8@.reg =~= Seq::new(8, |i: int| 0u8));
        cr8
    }

    /// The machine with its clock speed set to `speed`.
    pub fn speed(self, speed: u64) -> (cr8: Self)
        ensures
            cr8@ == (Machine { speed, ..self@ }),
    {
        CR8 {
            reg: self.reg,
            pc: self.pc,
            sp: self.sp,
            mem: self.mem,
            dev: self.dev,
            speed,
        }
    }

    /// The address in the pair X, Y.
    pub fn xy(&self) -> (addr: u16)
        ensures
            addr == self@.xy(),
    {
        join((self.reg[Register::X.index()], self.reg[Register::Y.index()]))
    }

    /// The program counter's low and high byte.
    pub fn pc(&self) -> (lh: (u8, u8))
        ensures
            lh == halves(self.pc),
            joined(lh.0, lh.1) == self.pc,
    {
        split(self.pc)
    }

    /// What a device hook is shown of the machine now.
    pub fn snapshot(&self) -> (core: Snapshot)
        ensures
            core@ == self@.snapshot(),
    {
        Snapshot { reg: self.reg, pc: self.pc, sp: self.sp }
    }

    /// Reads the four-byte instruction window at the program counter,
    /// through the active bank.
    ///
    /// Fails with `MemoryAccessError` exactly when the byte at the program
    /// counter is not addressable. Of the three bytes after it, one that
    /// lies past the end of the memory or is not addressable is read as 0.
    pub fn fetch(&self) -> (r: Result<[u8; 4], Error>)
        requires
            self@.wf(),
        ensures
            match self@.window() {
                Ok(window) => r is Ok && r->Ok_0@ == window,
                Err(e) => r == Err::<[u8; 4], Error>(e),
            },
    {
        let first = match self.mem.get(self.pc) {
            Ok(byte) => byte,
            Err(e) => {
                return Err(e);
            },
        };
        let mut bytes: [u8; 4] = [first, 0, 0, 0];
        let mut i: u16 = 1;
        while i < 4
            invariant
                1 <= i <= 4,
                self@.wf(),
                self@.mem.read(self.pc) is Ok,
                forall|j: int| 0 <= j < i ==> bytes@[j] == self@.window_byte(j),
                forall|j: int| i <= j < 4 ==> bytes@[j] == 0,
            decreases 4 - i,
        {
            if self.pc <= u16::MAX - i {
                match self.mem.get(self.pc + i) {
                    Ok(byte) => {
                        bytes[i as usize] = byte;
                    },
                    Err(_) => {},
                }
            }
            i += 1;
        }
        assert(bytes@ =~= self@.window()->Ok_0);
        Ok(bytes)
    }

    /// LW with an absolute address: register `to` takes the byte at the
    /// address whose low byte is `i.0` and whose high byte is `i.1`.
    pub fn lw_imm16(&mut self, to: Register, i: (u8, u8)) -> (r: Result<(), Error>)
        requires
            old(self)@.wf(),
        ensures
            final(self)@.wf(),
            match old(self)@.load(to, joined(i.0, i.1)) {
                Ok(after) => r == Ok::<(), Error>(()) && final(self)@ == after,
                Err(e) => r == Err::<(), Error>(e) && final(self)@ == old(self)@,
            },
    {
        let addr = join(i);
        self.load(to, addr)
    }

    /// LW through the address pair: register `to` takes the byte at the
    /// address in X, Y.
    pub fn lw_hl(&mut self, to: Register) -> (r: Result<(), Error>)
        requires
            old(self)@.wf(),
        ensures
            final(self)@.wf(),
            match old(self)@.load(to, old(self)@.xy()) {
                Ok(after) => r == Ok::<(), Error>(()) && final(self)@ == after,
                Err(e) => r == Err::<(), Error>(e) && final(self)@ == old(self)@,
            },
    {
        let addr = self.xy();
        self.load(to, addr)
    }

    /// Register `to` takes the byte at `addr`.
    fn load(&mut self, to: Register, addr: u16) -> (r: Result<(), Error>)
        requires
            old(self)@.wf(),
        ensures
            final(self)@.wf(),
            match old(self)@.load(to, addr) {
                Ok(after) => r == Ok::<(), Error>(()) && final(self)@ == after,
                Err(e) => r == Err::<(), Error>(e) && final(self)@ == old(self)@,
            },
    {
        match self.mem.get(addr) {
            Ok(val) => {
                self.reg[to.index()] = val;
                Ok(())
            },
            Err(e) => Err(e),
        }
    }

    /// SW through the address pair: the byte at the address in X, Y takes
    /// the value of register `from`.
    pub fn sw_hl(&mut self, from: Register) -> (r: Result<(), Error>)
        requires
            old(self)@.wf(),
        ensures
            final(self)@.wf(),
            match old(self)@.store(from, old(self)@.xy()) {
                Ok(after) => r == Ok::<(), Error>(()) && final(self)@ == after,
                Err(e) => r == Err::<(), Error>(e) && final(self)@ == old(self)@,
            },
    {
        let addr = self.xy();
        self.mem.set(addr, self.reg[from.index()])
    }

    /// SW with an absolute address: the byte at the address whose low byte
    /// is `i.0` and whose high byte is `i.1` takes the value of register
    /// `from`.
    pub fn sw_imm16(&mut self, from: Register, i: (u8, u8)) -> (r: Result<(), Error>)
        requires
            old(self)@.wf(),
        ensures
            final(self)@.wf(),
            match old(self)@.store(from, joined(i.0, i.1)) {
                Ok(after) => r == Ok::<(), Error>(()) && final(self)@ == after,
                Err(e) => r == Err::<(), Error>(e) && final(self)@ == old(self)@,
            },
    {
        let addr = join(i);
        self.mem.set(addr, self.reg[from.index()])
    }

    /// MOV between registers: register `to` takes the value of `from`.
    pub fn mov_reg(&mut self, to: Register, from: Register)
        ensures
            final(self)@ == old(self)@.set(to, old(self)@.get(from)),
    {
        self.reg[to.index()] = self.reg[from.index()];
    }

    /// MOV with an immediate: register `to` takes `imm8`.
    pub fn mov_imm8(&mut self, to: Register, imm8: u8)
        ensures
            final(self)@ == old(self)@.set(to, imm8),
    {
        self.reg[to.index()] = imm8;
    }

    /// PUSH with an immediate.
    ///
    /// Fails with `StackOverflow` when the stack pointer is at or past
    /// `STACK_END`, and with `MemoryAccessError` when the cell above the
    /// stack pointer is not addressable. A push that fails changes nothing.
    pub fn push_imm8(&mut self, imm8: u8) -> (r: Result<(), Error>)
        requires
            old(self)@.wf(),
        ensures
            final(self)@.wf(),
            match old(self)@.push(imm8) {
                Ok(after) => r == Ok::<(), Error>(()) && final(self)@ == after,
                Err(e) => r == Err::<(), Error>(e) && final(self)@ == old(self)@,
            },
    {
        if self.sp >= STACK_END {
            return Err(Error::StackOverflow);
        }
        match self.mem.set(self.sp + 1, imm8) {
            Ok(()) => {
                self.sp = self.sp + 1;
                Ok(())
            },
            Err(e) => Err(e),
        }
    }

    /// PUSH of a register's value.
    pub fn push_reg(&mut self, reg: Register) -> (r: Result<(), Error>)
        requires
            old(self)@.wf(),
        ensures
            final(self)@.wf(),
            match old(self)@.push(old(self)@.get(reg)) {
                Ok(after) => r == Ok::<(), Error>(()) && final(self)@ == after,
                Err(e) => r == Err::<(), Error>(e) && final(self)@ == old(self)@,
            },
    {
        self.push_imm8(self.reg[reg.index()])
    }

    /// POP into a register.
    ///
    /// Fails with `StackUnderflow` when the stack is empty, that is when
    /// the stack pointer is at or below `STACK`, and with
    /// `MemoryAccessError` when the cell at the stack pointer is not
    /// addressable. A pop that fails changes nothing.
    pub fn pop(&mut self, reg: Register) -> (r: Result<(), Error>)
        requires
            old(self)@.wf(),
        ensures
            final(self)@.wf(),
            match old(self)@.pop(reg) {
                Ok(after) => r == Ok::<(), Error>(()) && final(self)@ == after,
                Err(e) => r == Err::<(), Error>(e) && final(self)@ == old(self)@,
            },
    {
        if self.sp <= STACK {
            return Err(Error::StackUnderflow);
        }
        match self.mem.get(self.sp) {
            Ok(val) => {
                let cleared = self.mem.set(self.sp, 0);
                self.reg[reg.index()] = val;
                self.sp = self.sp - 1;
                Ok(())
            },
            Err(e) => Err(e),
        }
    }

    /// JNZ on an immediate: the program counter takes the address in X, Y
    /// unless `imm8` is zero.
    pub fn jnz_imm8(&mut self, imm8: u8)
        ensures
            final(self)@ == old(self)@.jump(imm8),
    {
        if imm8 != 0 {
            self.pc = self.xy();
        }
    }

    /// JNZ on a register: the program counter takes the address in X, Y
    /// unless the register holds zero.
    pub fn jnz_reg(&mut self, reg: Register)
        ensures
            final(self)@ == old(self)@.jump(old(self)@.get(reg)),
    {
        self.jnz_imm8(self.reg[reg.index()]);
    }

    /// IN from the port `port`: register `into` takes the byte that the
    /// device's `receive` hook hands out.
    ///
    /// Fails with `DeviceNotPresent`, and changes nothing, exactly when no
    /// device is registered at `port`.
    pub fn in_imm8(&mut self, into: Register, port: u8) -> (r: Result<(), Error>)
        requires
            old(self)@.wf(),
        ensures
            final(self)@.wf(),
            old(self)@.dev.has(port) ==> r == Ok::<(), Error>(()) && old(self)@.inputs(
                into,
                port,
                final(self)@,
            ),
            !old(self)@.dev.has(port) ==> r == Err::<(), Error>(Error::DeviceNotPresent)
                && final(self)@ == old(self)@,
            forall|q: u8| #[trigger] final(self)@.dev.has(q) == old(self)@.dev.has(q),
            forall|q: u8|
                q != port && old(self)@.dev.has(q) ==> #[trigger] final(self)@.dev.device(q)
                    == old(self)@.dev.device(q),
    {
        let core = self.snapshot();
        match self.dev.receive(port, &core) {
            Ok(byte) => {
                self.reg[into.index()] = byte;
                Ok(())
            },
            Err(e) => Err(e),
        }
    }

    /// IN from the port held in register `port`.
    pub fn in_reg(&mut self, into: Register, port: Register) -> (r: Result<(), Error>)
        requires
            old(self)@.wf(),
        ensures
            final(self)@.wf(),
            old(self)@.dev.has(old(self)@.get(port)) ==> r == Ok::<(), Error>(())
                && old(self)@.inputs(into, old(self)@.get(port), final(self)@),
            !old(self)@.dev.has(old(self)@.get(port)) ==> r == Err::<(), Error>(
                Error::DeviceNotPresent,
            ) && final(self)@ == old(self)@,
            forall|q: u8| #[trigger] final(self)@.dev.has(q) == old(self)@.dev.has(q),
    {
        self.in_imm8(into, self.reg[port.index()])
    }

    /// OUT to the port `port`: the device's `send` hook runs on the value
    /// of register `send`.
    ///
    /// Fails with `DeviceNotPresent`, and changes nothing, exactly when no
    /// device is registered at `port`.
    pub fn out_imm8(&mut self, send: Register, port: u8) -> (r: Result<(), Error>)
        requires
            old(self)@.wf(),
        ensures
            final(self)@.wf(),
            old(self)@.dev.has(port) ==> r == Ok::<(), Error>(()) && old(self)@.outputs(
                send,
                port,
                final(self)@,
            ),
            !old(self)@.dev.has(port) ==> r == Err::<(), Error>(Error::DeviceNotPresent)
                && final(self)@ == old(self)@,
            forall|q: u8| #[trigger] final(self)@.dev.has(q) == old(self)@.dev.has(q),
            forall|q: u8|
                q != port && old(self)@.dev.has(q) ==> #[trigger] final(self)@.dev.device(q)
                    == old(self)@.dev.device(q),
    {
        let core = self.snapshot();
        self.dev.send(port, &core, self.reg[send.index()])
    }

    /// OUT to the port held in register `port`.
    pub fn out_reg(&mut self, send: Register, port: Register) -> (r: Result<(), Error>)
        requires
            old(self)@.wf(),
        ensures
            final(self)@.wf(),
            old(self)@.dev.has(old(self)@.get(port)) ==> r == Ok::<(), Error>(())
                && old(self)@.outputs(send, old(self)@.get(port), final(self)@),
            !old(self)@.dev.has(old(self)@.get(port)) ==> r == Err::<(), Error>(
                Error::DeviceNotPresent,
            ) && final(self)@ == old(self)@,
            forall|q: u8| #[trigger] final(self)@.dev.has(q) == old(self)@.dev.has(q),
    {
        self.out_imm8(send, self.reg[port.index()])
    }

    /// CMP with an immediate: the flags register takes the equal flag when
    /// register `lhs` equals `imm8`, the less flag when it is smaller, and
    /// no flag otherwise.
    pub fn cmp_imm8(&mut self, lhs: Register, imm8: u8)
        ensures
            final(self)@ == old(self)@.compare(lhs, imm8),
    {
        let diff: i16 = difference(self.reg[lhs.index()], imm8);
        let mut f: u8 = 0;
        if diff == 0 {
            f = EQUAL;
        }
        if diff < 0 {
            f = LESS;
        }
        self.reg[Register::F.index()] = f;
    }

    /// CMP with a register.
    pub fn cmp_reg(&mut self, lhs: Register, reg: Register)
        ensures
            final(self)@ == old(self)@.compare(lhs, old(self)@.get(reg)),
    {
        self.cmp_imm8(lhs, self.reg[reg.index()]);
    }

    /// ADC with an immediate: register `lhs` takes `lhs + imm8 + carry`
    /// modulo 256, and the carry flag says whether the sum passed 255.
    pub fn adc_imm8(&mut self, lhs: Register, imm8: u8)
        ensures
            final(self)@ == old(self)@.adc(lhs, imm8),
    {
        let f: u8 = self.reg[Register::F.index()];
        let cf: u8 = (f >> 2) & 1;
        assert(cf == if f & 0b0100 != 0 { 1u8 } else { 0u8 }) by (bit_vector)
            requires
                cf == (f >> 2) & 1,
        ;
        let (res, carry) = carrying_sum(self.reg[lhs.index()], imm8, cf);
        if carry {
            self.reg[Register::F.index()] = f | CARRY;
        } else {
            self.reg[Register::F.index()] = f & 0b1011;
        }
        self.reg[lhs.index()] = res;
    }

    /// ADC with a register.
    pub fn adc_reg(&mut self, lhs: Register, reg: Register)
        ensures
            final(self)@ == old(self)@.adc(lhs, old(self)@.get(reg)),
    {
        self.adc_imm8(lhs, self.reg[reg.index()]);
    }

    /// SBB with an immediate: register `lhs` takes `lhs - imm8 - borrow`
    /// modulo 256, and the borrow flag says whether the difference fell
    /// below 0.
    pub fn sbb_imm8(&mut self, lhs: Register, imm8: u8)
        ensures
            final(self)@ == old(self)@.sbb(lhs, imm8),
    {
        let f: u8 = self.reg[Register::F.index()];
        let bf: u8 = (f >> 3) & 1;
        assert(bf == if f & 0b1000 != 0 { 1u8 } else { 0u8 }) by (bit_vector)
            requires
                bf == (f >> 3) & 1,
        ;
        let (res, borrow) = borrowing_difference(self.reg[lhs.index()], imm8, bf);
        if borrow {
            self.reg[Register::F.index()] = f | BORROW;
        } else {
            self.reg[Register::F.index()] = f & 0b0111;
        }
        self.reg[lhs.index()] = res;
    }

    /// SBB with a register.
    pub fn sbb_reg(&mut self, lhs: Register, reg: Register)
        ensures
            final(self)@ == old(self)@.sbb(lhs, old(self)@.get(reg)),
    {
        self.sbb_imm8(lhs, self.reg[reg.index()]);
    }

    /// OR with an immediate.
    pub fn or_imm8(&mut self, lhs: Register, imm8: u8)
        ensures
            final(self)@ == old(self)@.or(lhs, imm8),
    {
        self.reg[lhs.index()] = self.reg[lhs.index()] | imm8;
    }

    /// OR with a register.
    pub fn or_reg(&mut self, lhs: Register, reg: Register)
        ensures
            final(self)@ == old(self)@.or(lhs, old(self)@.get(reg)),
    {
        self.or_imm8(lhs, self.reg[reg.index()]);
    }

    /// NOR with an immediate.
    pub fn nor_imm8(&mut self, lhs: Register, imm8: u8)
        ensures
            final(self)@ == old(self)@.nor(lhs, imm8),
    {
        self.reg[lhs.index()] = !(self.reg[lhs.index()] | imm8);
    }

    /// NOR with a register.
    pub fn nor_reg(&mut self, lhs: Register, reg: Register)
        ensures
            final(self)@ == old(self)@.nor(lhs, old(self)@.get(reg)),
    {
        self.nor_imm8(lhs, self.reg[reg.index()]);
    }

    /// AND with an immediate.
    pub fn and_imm8(&mut self, lhs: Register, imm8: u8)
        ensures
            final(self)@ == old(self)@.and(lhs, imm8),
    {
        self.reg[lhs.index()] = self.reg[lhs.index()] & imm8;
    }

    /// AND with a register.
    pub fn and_reg(&mut self, lhs: Register, reg: Register)
        ensures
            final(self)@ == old(self)@.and(lhs, old(self)@.get(reg)),
    {
        self.and_imm8(lhs, self.reg[reg.index()]);
    }

    /// BANK: makes `bank` the active memory bank.
    ///
    /// Fails with `MemoryAccessError`, and changes nothing, exactly when
    /// `bank` is neither 0 nor the number of a configured bank.
    pub fn select_bank(&mut self, bank: u8) -> (r: Result<(), Error>)
        requires
            old(self)@.wf(),
        ensures
            final(self)@.wf(),
            match old(self)@.bank(bank) {
                Ok(after) => r == Ok::<(), Error>(()) && final(self)@ == after,
                Err(e) => r == Err::<(), Error>(e) && final(self)@ == old(self)@,
            },
    {
        self.mem.select(bank)
    }

    /// Registers `dev` under `name` at the next port and returns that
    /// port.
    ///
    /// Ports are handed out in rising order and never a second time. When
    /// all 256 have been handed out nothing is registered and `None` is
    /// returned.
    pub fn dev_add(&mut self, name: String, dev: D) -> (port: Option<u8>)
        requires
            old(self)@.wf(),
        ensures
            final(self)@.wf(),
            old(self)@.dev.next < 256 ==> port == Some(old(self)@.dev.next as u8) && final(self)@
                == (Machine { dev: old(self)@.dev.added(name@, dev), ..old(self)@ }),
            old(self)@.dev.next >= 256 ==> port is None && final(self)@ == old(self)@,
            port matches Some(p) ==> !old(self)@.dev.has(p) && final(self)@.dev.has(p)
                && final(self)@.dev.device(p) == dev,
            forall|q: u8| #[trigger]
                old(self)@.dev.has(q) ==> final(self)@.dev.has(q) && final(self)@.dev.device(q)
                    == old(self)@.dev.device(q),
    {
        self.dev.add(name, dev)
    }

    /// Runs the removal hook of the device at port `id`, takes the device
    /// off the bus and hands it back.
    ///
    /// Fails with `DeviceNotPresent`, and changes nothing, exactly when no
    /// device is registered at `id`.
    pub fn dev_rm(&mut self, id: u8) -> (r: Result<D, Error>)
        requires
            old(self)@.wf(),
        ensures
            final(self)@.wf(),
            old(self)@.dev.has(id) ==> r is Ok && D::removes(
                old(self)@.dev.device(id),
                old(self)@.snapshot(),
                r->Ok_0,
            ) && final(self)@ == (Machine { dev: old(self)@.dev.removed(id), ..old(self)@ }),
            !old(self)@.dev.has(id) ==> r == Err::<D, Error>(Error::DeviceNotPresent)
                && final(self)@ == old(self)@,
            !final(self)@.dev.has(id),
            forall|q: u8| q != id ==> #[trigger] final(self)@.dev.has(q) == old(self)@.dev.has(q),
            forall|q: u8|
                q != id && old(self)@.dev.has(q) ==> #[trigger] final(self)@.dev.device(q)
                    == old(self)@.dev.device(q),
    {
        let core = self.snapshot();
        self.dev.remove(id, &core)
    }

    /// Reports the machine's state: the general-purpose registers, the
    /// address pair and the byte it points at, the stack's depth and the
    /// byte on its top, the devices' names and the four flags.
    pub fn debug(&self) -> (status: Status)
        requires
            self@.wf(),
            STACK <= self.sp,
        ensures
            status.a == self@.get(Register::A),
            status.b == self@.get(Register::B),
            status.c == self@.get(Register::C),
            status.d == self@.get(Register::D),
            status.z == self@.get(Register::Z),
            status.xy == self@.xy(),
            status.at_xy == self@.mem.read(self@.xy()),
            status.depth == self.sp - STACK,
            status.at_sp == self@.mem.read(self.sp),
            status.devices@.len() == self@.dev.slots.len(),
            forall|i: int|
                0 <= i < status.devices@.len() ==> (#[trigger] status.devices@[i])@
                    == self@.dev.slots[i].name,
            status.less == (self@.get(Register::F) & LESS != 0),
            status.equal == (self@.get(Register::F) & EQUAL != 0),
            status.carry == (self@.get(Register::F) & CARRY != 0),
            status.borrow == (self@.get(Register::F) & BORROW != 0),
    {
        let xy = self.xy();
        let f: u8 = self.reg[Register::F.index()];
        let mut devices: Vec<String> = Vec::new();
        let mut i: usize = 0;
        while i < self.dev.len()
            invariant
                i <= self@.dev.slots.len(),
                devices@.len() == i,
                forall|j: int|
                    0 <= j < i ==> (#[trigger] devices@[j])@ == self@.dev.slots[j].name,
            decreases self@.dev.slots.len() - i,
        {
            let entry = self.dev.entry(i);
            devices.push(entry.1);
            i += 1;
        }
        Status {
            a: self.reg[Register::A.index()],
            b: self.reg[Register::B.index()],
            c: self.reg[Register::C.index()],
            d: self.reg[Register::D.index()],
            z: self.reg[Register::Z.index()],
            xy,
            at_xy: self.mem.get(xy),
            depth: self.sp - STACK,
            at_sp: self.mem.get(self.sp),
            devices,
            less: f & LESS != 0,
            equal: f & EQUAL != 0,
            carry: f & CARRY != 0,
            borrow: f & BORROW != 0,
        }
    }

    /// Moves the program counter to the next byte.
    pub fn tick_pc(&mut self)
        requires
            old(self).pc < u16::MAX,
        ensures
            final(self)@ == (Machine { pc: (old(self).pc + 1) as u16, ..old(self)@ }),
    {
        self.pc = self.pc + 1;
    }
}

} // verus!
