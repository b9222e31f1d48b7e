//! The machine as a mathematical value, and what each operation makes of
//! it.
//!
//! The contracts of the executable core are stated over this model.

use vstd::prelude::*;
use crate::device::{Bus, Core, Device};
use crate::error::Error;
use crate::mem::{MemView, STACK, STACK_END};
use crate::op::{decoded, mode_code, opcode, AddressingMode, Operation};
use crate::reg::{Register, BORROW, CARRY, EQUAL, LESS};

verus! {

/// The 16-bit value whose low byte is `l` and whose high byte is `h`.
pub open spec fn joined(l: u8, h: u8) -> u16 {
    (l + 256 * h) as u16
}

/// The low and the high byte of `hl`.
pub open spec fn halves(hl: u16) -> (u8, u8) {
    ((hl % 256) as u8, (hl / 256) as u8)
}

/// The low four bits of an operand byte: the first register's index.
pub open spec fn low_nibble(b: u8) -> u8 {
    b & 0b1111
}

/// The high four bits of an operand byte: the second register's index.
pub open spec fn high_nibble(b: u8) -> u8 {
    b >> 4
}

/// The register named by the low four bits of `b`.
pub open spec fn first_reg(b: u8) -> Register {
    Register::spec_from_index(low_nibble(b))->0
}

/// The register named by the high four bits of `b`.
pub open spec fn second_reg(b: u8) -> Register {
    Register::spec_from_index(high_nibble(b))->0
}

/// The carry that an add takes in: 1 when the carry flag is set in `f`.
pub open spec fn carry_in(f: u8) -> int {
    if f & CARRY != 0 {
        1
    } else {
        0
    }
}

/// The borrow that a subtract takes in: 1 when the borrow flag is set in
/// `f`.
pub open spec fn borrow_in(f: u8) -> int {
    if f & BORROW != 0 {
        1
    } else {
        0
    }
}

/// The flags that a compare of `a` with `b` leaves.
pub open spec fn compare_flags(a: u8, b: u8) -> u8 {
    if a == b {
        EQUAL
    } else if a < b {
        LESS
    } else {
        0
    }
}

/// Whether the register indices that an instruction with operand byte `b`
/// reads in `mode` are all below 8.
pub open spec fn operand_byte_ok(mode: AddressingMode, b: u8) -> bool {
    match mode {
        AddressingMode::R0I1 => true,
        AddressingMode::R1I0 | AddressingMode::R1I1 => low_nibble(b) < 8,
        AddressingMode::R2I0 => low_nibble(b) < 8 && high_nibble(b) < 8,
    }
}

/// Whether the register indices that the instruction in `bytes` reads are
/// all below 8. An instruction that does not decode reads none.
pub open spec fn operands_ok(bytes: [u8; 4]) -> bool {
    match decoded(bytes[0]) {
        Err(_) => true,
        Ok((_, mode)) => operand_byte_ok(mode, bytes[1]),
    }
}

/// The machine as a mathematical value.
#[verifier::ext_equal]
pub struct Machine<D> {
    /// The eight registers, by index.
    pub reg: Seq<u8>,
    /// The program counter.
    pub pc: u16,
    /// The stack pointer: the address of the top of the stack, `STACK`
    /// while the stack is empty.
    pub sp: u16,
    /// The memory.
    pub mem: MemView,
    /// The device bus.
    pub dev: Bus<D>,
    /// The clock speed.
    pub speed: u64,
}

/// What an instruction leaves: the machine after it, and its length or the
/// reason why it failed.
#[verifier::ext_equal]
pub struct Outcome<D> {
    /// The instruction's length in bytes; 0 for a branch that was taken.
    pub result: Result<u8, Error>,
    /// The machine after the instruction.
    pub after: Machine<D>,
}

impl<D: Device> Machine<D> {
    /// The shape every machine has.
    pub open spec fn wf(self) -> bool {
        &&& self.reg.len() == 8
        &&& self.mem.wf()
        &&& self.dev.wf()
    }

    /// Whether the stack pointer lies in the stack region.
    pub open spec fn in_stack(self) -> bool {
        STACK <= self.sp <= STACK_END
    }

    /// The value of register `r`.
    pub open spec fn get(self, r: Register) -> u8 {
        self.reg[r.spec_index()]
    }

    /// The machine with `val` in register `r`.
    pub open spec fn set(self, r: Register, val: u8) -> Machine<D> {
        Machine { reg: self.reg.update(r.spec_index(), val), ..self }
    }

    /// The address in the pair X, Y: X is its low byte, Y its high byte.
    pub open spec fn xy(self) -> u16 {
        joined(self.get(Register::X), self.get(Register::Y))
    }

    /// What a device hook is shown of this machine.
    pub open spec fn snapshot(self) -> Core {
        Core { reg: self.reg, pc: self.pc, sp: self.sp }
    }

    /// The byte of the instruction window at offset `i` from the program
    /// counter: the byte at that address, or 0 where the address lies past
    /// the end of the memory or is not addressable.
    pub open spec fn window_byte(self, i: int) -> u8 {
        if self.pc + i > u16::MAX {
            0
        } else {
            match self.mem.read((self.pc + i) as u16) {
                Ok(byte) => byte,
                Err(_) => 0,
            }
        }
    }

    /// The four-byte instruction window at the program counter, or the
    /// failure to read its first byte.
    pub open spec fn window(self) -> Result<Seq<u8>, Error> {
        match self.mem.read(self.pc) {
            Ok(_) => Ok(Seq::new(4, |i: int| self.window_byte(i))),
            Err(e) => Err(e),
        }
    }

    /// LW: register `to` takes the byte at `addr`.
    pub open spec fn load(self, to: Register, addr: u16) -> Result<Machine<D>, Error> {
        match self.mem.read(addr) {
            Ok(val) => Ok(self.set(to, val)),
            Err(e) => Err(e),
        }
    }

    /// SW: the byte at `addr` takes the value of register `from`.
    pub open spec fn store(self, from: Register, addr: u16) -> Result<Machine<D>, Error> {
        match self.mem.write(addr, self.get(from)) {
            Ok(mem) => Ok(Machine { mem, ..self }),
            Err(e) => Err(e),
        }
    }

    /// PUSH: the stack pointer moves up by one and `val` is stored there.
    pub open spec fn push(self, val: u8) -> Result<Machine<D>, Error> {
        if self.sp >= STACK_END {
            Err(Error::StackOverflow)
        } else {
            match self.mem.write((self.sp + 1) as u16, val) {
                Ok(mem) => Ok(Machine { mem, sp: (self.sp + 1) as u16, ..self }),
                Err(e) => Err(e),
            }
        }
    }

    /// POP: register `to` takes the byte at the stack pointer, that cell is
    /// zeroed, and the stack pointer moves down by one.
    pub open spec fn pop(self, to: Register) -> Result<Machine<D>, Error> {
        if self.sp <= STACK {
            Err(Error::StackUnderflow)
        } else {
            match self.mem.read(self.sp) {
                Ok(val) => Ok(
                    Machine {
                        mem: self.mem.write(self.sp, 0)->Ok_0,
                        sp: (self.sp - 1) as u16,
                        ..self.set(to, val)
                    },
                ),
                Err(e) => Err(e),
            }
        }
    }

    /// JNZ: the program counter takes the address in X, Y unless `cond` is
    /// zero.
    pub open spec fn jump(self, cond: u8) -> Machine<D> {
        if cond == 0 {
            self
        } else {
            Machine { pc: self.xy(), ..self }
        }
    }

    /// CMP: the flags register takes the flags of the compare of
    /// register `lhs` with `rhs`.
    pub open spec fn compare(self, lhs: Register, rhs: u8) -> Machine<D> {
        self.set(Register::F, compare_flags(self.get(lhs), rhs))
    }

    /// ADC: register `lhs` takes `lhs + rhs + carry` modulo 256; the carry
    /// flag is set when the sum passed 255 and cleared when it did not.
    /// The flags are written first, so with F as `lhs` the sum stays.
    pub open spec fn adc(self, lhs: Register, rhs: u8) -> Machine<D> {
        let f = self.get(Register::F);
        let sum = self.get(lhs) + rhs + carry_in(f);
        let flags = if sum >= 256 {
            f | CARRY
        } else {
            f & 0b1011
        };
        self.set(Register::F, flags).set(lhs, (sum % 256) as u8)
    }

    /// SBB: register `lhs` takes `lhs - rhs - borrow` modulo 256; the
    /// borrow flag is set when the difference fell below 0 and cleared when
    /// it did not. The flags are written first, so with F as `lhs` the
    /// difference stays.
    pub open spec fn sbb(self, lhs: Register, rhs: u8) -> Machine<D> {
        let f = self.get(Register::F);
        let diff = self.get(lhs) - rhs - borrow_in(f);
        let flags = if diff < 0 {
            f | BORROW
        } else {
            f & 0b0111
        };
        self.set(Register::F, flags).set(lhs, (diff % 256) as u8)
    }

    /// AND: register `lhs` takes `lhs & rhs`.
    pub open spec fn and(self, lhs: Register, rhs: u8) -> Machine<D> {
        self.set(lhs, self.get(lhs) & rhs)
    }

    /// OR: register `lhs` takes `lhs | rhs`.
    pub open spec fn or(self, lhs: Register, rhs: u8) -> Machine<D> {
        self.set(lhs, self.get(lhs) | rhs)
    }

    /// NOR: register `lhs` takes the bitwise complement of `lhs | rhs`.
    pub open spec fn nor(self, lhs: Register, rhs: u8) -> Machine<D> {
        self.set(lhs, !(self.get(lhs) | rhs))
    }

    /// BANK: `bank` becomes the active memory bank.
    pub open spec fn bank(self, bank: u8) -> Result<Machine<D>, Error> {
        match self.mem.select(bank) {
            Ok(mem) => Ok(Machine { mem, ..self }),
            Err(e) => Err(e),
        }
    }

    /// IN: whether `after` is this machine once the device at `port` has
    /// run its `receive` hook and register `into` has taken the byte it
    /// handed out.
    pub open spec fn inputs(self, into: Register, port: u8, after: Machine<D>) -> bool {
        &&& self.dev.has(port)
        &&& D::receives(
            self.dev.device(port),
            self.snapshot(),
            after.dev.device(port),
            after.get(into),
        )
        &&& after == Machine {
            dev: self.dev.with_device(port, after.dev.device(port)),
            ..self.set(into, after.get(into))
        }
    }

    /// OUT: whether `after` is this machine once the device at `port` has
    /// run its `send` hook on the value of register `from`.
    pub open spec fn outputs(self, from: Register, port: u8, after: Machine<D>) -> bool {
        &&& self.dev.has(port)
        &&& D::sends(
            self.dev.device(port),
            self.snapshot(),
            self.get(from),
            after.dev.device(port),
        )
        &&& after == Machine { dev: self.dev.with_device(port, after.dev.device(port)), ..self }
    }
}

impl<D: Device> Machine<D> {
    /// The outcome of an instruction that failed with `e`: nothing changed.
    pub open spec fn failed(self, e: Error) -> Outcome<D> {
        Outcome { result: Err(e), after: self }
    }

    /// The outcome of an instruction of `len` bytes whose effect is
    /// `effect`; where the effect is a failure, nothing changed.
    pub open spec fn finished(self, effect: Result<Machine<D>, Error>, len: u8) -> Outcome<D> {
        match effect {
            Ok(after) => Outcome { result: Ok(len), after },
            Err(e) => self.failed(e),
        }
    }

    /// The register operand, the value operand and the length of an
    /// instruction that takes a register and either an immediate or a
    /// second register; `None` in the other two modes.
    pub open spec fn two_operands(self, mode: AddressingMode, bytes: [u8; 4]) -> Option<
        (Register, u8, u8),
    > {
        match mode {
            AddressingMode::R1I1 => Some((first_reg(bytes[1]), bytes[2], 3u8)),
            AddressingMode::R2I0 => Some(
                (first_reg(bytes[1]), self.get(second_reg(bytes[1])), 2u8),
            ),
            _ => None,
        }
    }

    /// What MOV makes of the machine.
    pub open spec fn run_mov(self, mode: AddressingMode, bytes: [u8; 4]) -> Outcome<D> {
        match self.two_operands(mode, bytes) {
            Some((to, val, len)) => Outcome { result: Ok(len), after: self.set(to, val) },
            None => self.failed(Error::InvalidAddressingMode),
        }
    }

    /// What LW makes of the machine.
    pub open spec fn run_lw(self, mode: AddressingMode, bytes: [u8; 4]) -> Outcome<D> {
        match mode {
            AddressingMode::R1I0 => self.finished(self.load(first_reg(bytes[1]), self.xy()), 2),
            AddressingMode::R1I1 => self.finished(
                self.load(first_reg(bytes[1]), joined(bytes[2], bytes[3])),
                4,
            ),
            _ => self.failed(Error::InvalidAddressingMode),
        }
    }

    /// What SW makes of the machine.
    pub open spec fn run_sw(self, mode: AddressingMode, bytes: [u8; 4]) -> Outcome<D> {
        match mode {
            AddressingMode::R1I0 => self.finished(self.store(first_reg(bytes[1]), self.xy()), 2),
            AddressingMode::R1I1 => self.finished(
                self.store(first_reg(bytes[1]), joined(bytes[2], bytes[3])),
                4,
            ),
            _ => self.failed(Error::InvalidAddressingMode),
        }
    }

    /// What PUSH makes of the machine. A full stack is reported before a
    /// mode that PUSH does not take.
    pub open spec fn run_push(self, mode: AddressingMode, bytes: [u8; 4]) -> Outcome<D> {
        if self.sp >= STACK_END {
            self.failed(Error::StackOverflow)
        } else {
            match mode {
                AddressingMode::R1I0 => self.finished(self.push(self.get(first_reg(bytes[1]))), 2),
                AddressingMode::R0I1 => self.finished(self.push(bytes[1]), 2),
                _ => self.failed(Error::InvalidAddressingMode),
            }
        }
    }

    /// What POP makes of the machine. An empty stack is reported before a
    /// mode that POP does not take.
    pub open spec fn run_pop(self, mode: AddressingMode, bytes: [u8; 4]) -> Outcome<D> {
        if self.sp <= STACK {
            self.failed(Error::StackUnderflow)
        } else {
            match mode {
                AddressingMode::R1I0 => self.finished(self.pop(first_reg(bytes[1])), 2),
                _ => self.failed(Error::InvalidAddressingMode),
            }
        }
    }

    /// What JNZ makes of the machine. The condition is the register's
    /// value, or 1 where the instruction names no register. A branch that
    /// is taken has length 0: the program counter is already where
    /// execution goes on.
    pub open spec fn run_jnz(self, mode: AddressingMode, bytes: [u8; 4]) -> Outcome<D> {
        match mode {
            AddressingMode::R1I0 => {
                let cond = self.get(first_reg(bytes[1]));
                Outcome {
                    result: Ok(
                        if cond == 0 {
                            2u8
                        } else {
                            0u8
                        },
                    ),
                    after: self.jump(cond),
                }
            },
            AddressingMode::R0I1 => Outcome { result: Ok(0u8), after: self.jump(1) },
            _ => self.failed(Error::InvalidAddressingMode),
        }
    }

    /// Whether `out` is what IN may make of the machine.
    pub open spec fn runs_in(self, mode: AddressingMode, bytes: [u8; 4], out: Outcome<D>) -> bool {
        match self.two_operands(mode, bytes) {
            Some((into, port, len)) => if self.dev.has(port) {
                out.result == Ok::<u8, Error>(len) && self.inputs(into, port, out.after)
            } else {
                out == self.failed(Error::DeviceNotPresent)
            },
            None => out == self.failed(Error::InvalidAddressingMode),
        }
    }

    /// Whether `out` is what OUT may make of the machine.
    pub open spec fn runs_out(self, mode: AddressingMode, bytes: [u8; 4], out: Outcome<D>) -> bool {
        match self.two_operands(mode, bytes) {
            Some((from, port, len)) => if self.dev.has(port) {
                out.result == Ok::<u8, Error>(len) && self.outputs(from, port, out.after)
            } else {
                out == self.failed(Error::DeviceNotPresent)
            },
            None => out == self.failed(Error::InvalidAddressingMode),
        }
    }

    /// What CMP makes of the machine.
    pub open spec fn run_compare(self, mode: AddressingMode, bytes: [u8; 4]) -> Outcome<D> {
        match self.two_operands(mode, bytes) {
            Some((lhs, rhs, len)) => Outcome { result: Ok(len), after: self.compare(lhs, rhs) },
            None => self.failed(Error::InvalidAddressingMode),
        }
    }

    /// What ADC makes of the machine.
    pub open spec fn run_adc(self, mode: AddressingMode, bytes: [u8; 4]) -> Outcome<D> {
        match self.two_operands(mode, bytes) {
            Some((lhs, rhs, len)) => Outcome { result: Ok(len), after: self.adc(lhs, rhs) },
            None => self.failed(Error::InvalidAddressingMode),
        }
    }

    /// What SBB makes of the machine.
    pub open spec fn run_sbb(self, mode: AddressingMode, bytes: [u8; 4]) -> Outcome<D> {
        match self.two_operands(mode, bytes) {
            Some((lhs, rhs, len)) => Outcome { result: Ok(len), after: self.sbb(lhs, rhs) },
            None => self.failed(Error::InvalidAddressingMode),
        }
    }

    /// What AND makes of the machine.
    pub open spec fn run_and(self, mode: AddressingMode, bytes: [u8; 4]) -> Outcome<D> {
        match self.two_operands(mode, bytes) {
            Some((lhs, rhs, len)) => Outcome { result: Ok(len), after: self.and(lhs, rhs) },
            None => self.failed(Error::InvalidAddressingMode),
        }
    }

    /// What OR makes of the machine, and NOR where `not` is set.
    pub open spec fn run_or(self, mode: AddressingMode, bytes: [u8; 4], not: bool) -> Outcome<D> {
        match self.two_operands(mode, bytes) {
            Some((lhs, rhs, len)) => Outcome {
                result: Ok(len),
                after: if not {
                    self.nor(lhs, rhs)
                } else {
                    self.or(lhs, rhs)
                },
            },
            None => self.failed(Error::InvalidAddressingMode),
        }
    }

    /// What BANK makes of the machine. The bank is the register's value,
    /// or the immediate.
    pub open spec fn run_bank(self, mode: AddressingMode, bytes: [u8; 4]) -> Outcome<D> {
        match mode {
            AddressingMode::R1I0 => self.finished(self.bank(self.get(first_reg(bytes[1]))), 2),
            AddressingMode::R0I1 => self.finished(self.bank(bytes[1]), 2),
            _ => self.failed(Error::InvalidAddressingMode),
        }
    }

    /// Whether `out` is what `op`, applied in `mode` to the operands in
    /// `bytes`, may make of the machine. All operations but IN and OUT
    /// leave one outcome only; with those two the device has its say.
    pub open spec fn performs(
        self,
        op: Operation,
        mode: AddressingMode,
        bytes: [u8; 4],
        out: Outcome<D>,
    ) -> bool {
        match op {
            Operation::MOV => out == self.run_mov(mode, bytes),
            Operation::JNZ => out == self.run_jnz(mode, bytes),
            Operation::LW => out == self.run_lw(mode, bytes),
            Operation::SW => out == self.run_sw(mode, bytes),
            Operation::PUSH => out == self.run_push(mode, bytes),
            Operation::POP => out == self.run_pop(mode, bytes),
            Operation::IN => self.runs_in(mode, bytes, out),
            Operation::OUT => self.runs_out(mode, bytes, out),
            Operation::ADC => out == self.run_adc(mode, bytes),
            Operation::SBB => out == self.run_sbb(mode, bytes),
            Operation::CMP => out == self.run_compare(mode, bytes),
            Operation::AND => out == self.run_and(mode, bytes),
            Operation::OR => out == self.run_or(mode, bytes, false),
            Operation::NOR => out == self.run_or(mode, bytes, true),
            Operation::BANK => out == self.run_bank(mode, bytes),
        }
    }

    /// Whether `out` is what the instruction in `bytes` may make of the
    /// machine. The top six bits of the first byte choose the operation
    /// and its bottom two bits the mode.
    pub open spec fn executes(self, bytes: [u8; 4], out: Outcome<D>) -> bool {
        match Operation::spec_from_code(opcode(bytes[0])) {
            None => out == self.failed(Error::InvalidOperation),
            Some(op) => self.performs(
                op,
                AddressingMode::spec_from_code(mode_code(bytes[0])),
                bytes,
                out,
            ),
        }
    }
}

} // verus!
