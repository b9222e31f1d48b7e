//! The executor: it decodes a four-byte instruction window and runs the
//! handler of the operation it names.

use vstd::prelude::*;
use crate::cr8::CR8;
use crate::device::Device;
use crate::error::Error;
use crate::machine::{
    first_reg, high_nibble, low_nibble, operand_byte_ok, operands_ok, second_reg, Outcome,
};
use crate::mem::{STACK, STACK_END};
use crate::laws::lemma_executes;
use crate::op::{decode, decoded, opcode, AddressingMode, Operation};
use crate::reg::Register;

verus! {

/// The register named by the low four bits of the operand byte `b`.
fn first_register(b: u8) -> (r: Register)
    requires
        low_nibble(b) < 8,
    ensures
        r == first_reg(b),
{
    match Register::from_index(b & 0b1111) {
        Some(r) => r,
        None => Register::A,
    }
}

/// The register named by the high four bits of the operand byte `b`.
fn second_register(b: u8) -> (r: Register)
    requires
        high_nibble(b) < 8,
    ensures
        r == second_reg(b),
{
    match Register::from_index(b >> 4) {
        Some(r) => r,
        None => Register::A,
    }
}

/// Whether the register indices that the instruction in `bytes` reads are
/// all below 8, as `delegate` asks.
pub fn registers_valid(bytes: [u8; 4]) -> (ok: bool)
    ensures
        ok == operands_ok(bytes),
{
    match decode(bytes) {
        Err(_) => true,
        Ok((_, mode)) => match mode {
            AddressingMode::R0I1 => true,
            AddressingMode::R1I0 | AddressingMode::R1I1 => (bytes[1] & 0b1111) < 8,
            AddressingMode::R2I0 => (bytes[1] & 0b1111) < 8 && (bytes[1] >> 4) < 8,
        },
    }
}

impl<D: Device> CR8<D> {
    /// Runs the instruction in `bytes` and returns its length in bytes, by
    /// which the caller moves the program counter on. The length is 0
    /// after a branch that was taken: the program counter is then already
    /// where execution goes on.
    ///
    /// An instruction that fails changes nothing. It fails with
    /// `InvalidOperation` when the top six bits of the first byte are above
    /// 14, with `InvalidAddressingMode` when the operation does not take
    /// the mode in its bottom two bits, and otherwise as the operation
    /// says. PUSH reports a full stack, and POP an empty one, before a mode
    /// that it does not take.
    ///
    /// The register indices in the operand byte must be below 8 where the
    /// instruction reads them; `registers_valid` tests that.
    pub fn delegate(&mut self, bytes: [u8; 4]) -> (r: Result<u8, Error>)
        requires
            old(self)@.wf(),
            operands_ok(bytes),
        ensures
            final(self)@.wf(),
            old(self)@.executes(bytes, (Outcome { result: r, after: final(self)@ })),
            r is Err ==> final(self)@ == old(self)@,
            r == Err::<u8, Error>(Error::InvalidOperation) <==> opcode(bytes[0]) > 14,
            r matches Ok(len) ==> decoded(bytes[0]) matches Ok((op, mode)) && (len
                == op.spec_length(mode) || (len == 0 && op == Operation::JNZ)),
            old(self)@.in_stack() ==> final(self)@.in_stack(),
    {
        let mode = AddressingMode::from_byte(bytes[0]);
        let r = match Operation::from_code(bytes[0] >> 2) {
            Some(op) => self.perform(op, mode, bytes),
            None => Err(Error::InvalidOperation),
        };
        proof {
            lemma_executes(old(self)@, bytes, (Outcome { result: r, after: self@ }));
        }
        r
    }

    /// Runs the handler of `op` on the operands in `bytes`.
    fn perform(&mut self, op: Operation, mode: AddressingMode, bytes: [u8; 4]) -> (r: Result<
        u8,
        Error,
    >)
        requires
            old(self)@.wf(),
            op.spec_accepts(mode) ==> operand_byte_ok(mode, bytes[1]),
        ensures
            final(self)@.wf(),
            old(self)@.performs(op, mode, bytes, (Outcome { result: r, after: final(self)@ })),
    {
        match op {
            Operation::MOV => self.mov(mode, bytes),
            Operation::JNZ => self.jnz(mode, bytes),
            Operation::LW => self.lw(mode, bytes),
            Operation::SW => self.sw(mode, bytes),
            Operation::PUSH => self.push(mode, bytes),
            Operation::POP => self.pop_top(mode, bytes),
            Operation::IN => self.input(mode, bytes),
            Operation::OUT => self.out(mode, bytes),
            Operation::ADC => self.add(mode, bytes),
            Operation::SBB => self.sub(mode, bytes),
            Operation::CMP => self.cmp(mode, bytes),
            Operation::AND => self.and(mode, bytes),
            Operation::OR => self.or(mode, bytes, false),
            Operation::NOR => self.or(mode, bytes, true),
            Operation::BANK => self.bank(mode, bytes),
        }
    }

    /// LW: loads a register from the address in X, Y or from an absolute
    /// address, low byte first.
    fn lw(&mut self, mode: AddressingMode, bytes: [u8; 4]) -> (r: Result<u8, Error>)
        requires
            old(self)@.wf(),
            Operation::LW.spec_accepts(mode) ==> operand_byte_ok(mode, bytes[1]),
        ensures
            final(self)@.wf(),
            (Outcome { result: r, after: final(self)@ }) == old(self)@.run_lw(mode, bytes),
    {
        match mode {
            AddressingMode::R1I0 => {
                let to = first_register(bytes[1]);
                match self.lw_hl(to) {
                    Ok(()) => Ok(2),
                    Err(e) => Err(e),
                }
            },
            AddressingMode::R1I1 => {
                let to = first_register(bytes[1]);
                match self.lw_imm16(to, (bytes[2], bytes[3])) {
                    Ok(()) => Ok(4),
                    Err(e) => Err(e),
                }
            },
            _ => Err(Error::InvalidAddressingMode),
        }
    }

    /// SW: stores a register at the address in X, Y or at an absolute
    /// address, low byte first.
    fn sw(&mut self, mode: AddressingMode, bytes: [u8; 4]) -> (r: Result<u8, Error>)
        requires
            old(self)@.wf(),
            Operation::SW.spec_accepts(mode) ==> operand_byte_ok(mode, bytes[1]),
        ensures
            final(self)@.wf(),
            (Outcome { result: r, after: final(self)@ }) == old(self)@.run_sw(mode, bytes),
    {
        match mode {
            AddressingMode::R1I0 => {
                let from = first_register(bytes[1]);
                match self.sw_hl(from) {
                    Ok(()) => Ok(2),
                    Err(e) => Err(e),
                }
            },
            AddressingMode::R1I1 => {
                let from = first_register(bytes[1]);
                match self.sw_imm16(from, (bytes[2], bytes[3])) {
                    Ok(()) => Ok(4),
                    Err(e) => Err(e),
                }
            },
            _ => Err(Error::InvalidAddressingMode),
        }
    }

    /// MOV: copies an immediate or a register into a register.
    fn mov(&mut self, mode: AddressingMode, bytes: [u8; 4]) -> (r: Result<u8, Error>)
        requires
            Operation::MOV.spec_accepts(mode) ==> operand_byte_ok(mode, bytes[1]),
        ensures
            (Outcome { result: r, after: final(self)@ }) == old(self)@.run_mov(mode, bytes),
    {
        match mode {
            AddressingMode::R1I1 => {
                self.mov_imm8(first_register(bytes[1]), bytes[2]);
                Ok(3)
            },
            AddressingMode::R2I0 => {
                self.mov_reg(first_register(bytes[1]), second_register(bytes[1]));
                Ok(2)
            },
            _ => Err(Error::InvalidAddressingMode),
        }
    }

    /// PUSH: pushes a register's value or an immediate.
    fn push(&mut self, mode: AddressingMode, bytes: [u8; 4]) -> (r: Result<u8, Error>)
        requires
            old(self)@.wf(),
            Operation::PUSH.spec_accepts(mode) ==> operand_byte_ok(mode, bytes[1]),
        ensures
            final(self)@.wf(),
            (Outcome { result: r, after: final(self)@ }) == old(self)@.run_push(mode, bytes),
    {
        if self.sp >= STACK_END {
            return Err(Error::StackOverflow);
        }
        let pushed = match mode {
            AddressingMode::R1I0 => self.push_reg(first_register(bytes[1])),
            AddressingMode::R0I1 => self.push_imm8(bytes[1]),
            _ => {
                return Err(Error::InvalidAddressingMode);
            },
        };
        match pushed {
            Ok(()) => Ok(2),
            Err(e) => Err(e),
        }
    }

    /// POP: pops the top of the stack into a register.
    fn pop_top(&mut self, mode: AddressingMode, bytes: [u8; 4]) -> (r: Result<u8, Error>)
        requires
            old(self)@.wf(),
            Operation::POP.spec_accepts(mode) ==> operand_byte_ok(mode, bytes[1]),
        ensures
            final(self)@.wf(),
            (Outcome { result: r, after: final(self)@ }) == old(self)@.run_pop(mode, bytes),
    {
        if self.sp <= STACK {
            return Err(Error::StackUnderflow);
        }
        match mode {
            AddressingMode::R1I0 => match self.pop(first_register(bytes[1])) {
                Ok(()) => Ok(2),
                Err(e) => Err(e),
            },
            _ => Err(Error::InvalidAddressingMode),
        }
    }

    /// JNZ: branches to the address in X, Y unless the condition is zero.
    fn jnz(&mut self, mode: AddressingMode, bytes: [u8; 4]) -> (r: Result<u8, Error>)
        requires
            Operation::JNZ.spec_accepts(mode) ==> operand_byte_ok(mode, bytes[1]),
        ensures
            (Outcome { result: r, after: final(self)@ }) == old(self)@.run_jnz(mode, bytes),
    {
        let (condition, sz): (u8, u8) = match mode {
            AddressingMode::R1I0 => (self.reg[first_register(bytes[1]).index()], 2),
            AddressingMode::R0I1 => (1, 1),
            _ => {
                return Err(Error::InvalidAddressingMode);
            },
        };
        if condition == 0 {
            return Ok(sz);
        }
        self.jnz_imm8(condition);
        Ok(0)
    }

    /// IN: reads one byte from a device into a register.
    fn input(&mut self, mode: AddressingMode, bytes: [u8; 4]) -> (r: Result<u8, Error>)
        requires
            old(self)@.wf(),
            Operation::IN.spec_accepts(mode) ==> operand_byte_ok(mode, bytes[1]),
        ensures
            final(self)@.wf(),
            old(self)@.runs_in(mode, bytes, (Outcome { result: r, after: final(self)@ })),
    {
        match mode {
            AddressingMode::R1I1 => match self.in_imm8(first_register(bytes[1]), bytes[2]) {
                Ok(()) => Ok(3),
                Err(e) => Err(e),
            },
            AddressingMode::R2I0 => match self.in_reg(
                first_register(bytes[1]),
                second_register(bytes[1]),
            ) {
                Ok(()) => Ok(2),
                Err(e) => Err(e),
            },
            _ => Err(Error::InvalidAddressingMode),
        }
    }

    /// OUT: writes a register's value to a device.
    fn out(&mut self, mode: AddressingMode, bytes: [u8; 4]) -> (r: Result<u8, Error>)
        requires
            old(self)@.wf(),
            Operation::OUT.spec_accepts(mode) ==> operand_byte_ok(mode, bytes[1]),
        ensures
            final(self)@.wf(),
            old(self)@.runs_out(mode, bytes, (Outcome { result: r, after: final(self)@ })),
    {
        match mode {
            AddressingMode::R1I1 => match self.out_imm8(first_register(bytes[1]), bytes[2]) {
                Ok(()) => Ok(3),
                Err(e) => Err(e),
            },
            AddressingMode::R2I0 => match self.out_reg(
                first_register(bytes[1]),
                second_register(bytes[1]),
            ) {
                Ok(()) => Ok(2),
                Err(e) => Err(e),
            },
            _ => Err(Error::InvalidAddressingMode),
        }
    }

    /// CMP: compares a register with an immediate or a register and sets
    /// the flags.
    fn cmp(&mut self, mode: AddressingMode, bytes: [u8; 4]) -> (r: Result<u8, Error>)
        requires
            Operation::CMP.spec_accepts(mode) ==> operand_byte_ok(mode, bytes[1]),
        ensures
            (Outcome { result: r, after: final(self)@ }) == old(self)@.run_compare(mode, bytes),
    {
        match mode {
            AddressingMode::R1I1 => {
                self.cmp_imm8(first_register(bytes[1]), bytes[2]);
                Ok(3)
            },
            AddressingMode::R2I0 => {
                self.cmp_reg(first_register(bytes[1]), second_register(bytes[1]));
                Ok(2)
            },
            _ => Err(Error::InvalidAddressingMode),
        }
    }

    /// ADC: adds an immediate or a register, and the carry, to a register.
    fn add(&mut self, mode: AddressingMode, bytes: [u8; 4]) -> (r: Result<u8, Error>)
        requires
            Operation::ADC.spec_accepts(mode) ==> operand_byte_ok(mode, bytes[1]),
        ensures
            (Outcome { result: r, after: final(self)@ }) == old(self)@.run_adc(mode, bytes),
    {
        match mode {
            AddressingMode::R1I1 => {
                self.adc_imm8(first_register(bytes[1]), bytes[2]);
                Ok(3)
            },
            AddressingMode::R2I0 => {
                self.adc_reg(first_register(bytes[1]), second_register(bytes[1]));
                Ok(2)
            },
            _ => Err(Error::InvalidAddressingMode),
        }
    }

    /// SBB: subtracts an immediate or a register, and the borrow, from a
    /// register.
    fn sub(&mut self, mode: AddressingMode, bytes: [u8; 4]) -> (r: Result<u8, Error>)
        requires
            Operation::SBB.spec_accepts(mode) ==> operand_byte_ok(mode, bytes[1]),
        ensures
            (Outcome { result: r, after: final(self)@ }) == old(self)@.run_sbb(mode, bytes),
    {
        match mode {
            AddressingMode::R1I1 => {
                self.sbb_imm8(first_register(bytes[1]), bytes[2]);
                Ok(3)
            },
            AddressingMode::R2I0 => {
                self.sbb_reg(first_register(bytes[1]), second_register(bytes[1]));
                Ok(2)
            },
            _ => Err(Error::InvalidAddressingMode),
        }
    }

    /// OR, and NOR where `not` is set.
    fn or(&mut self, mode: AddressingMode, bytes: [u8; 4], not: bool) -> (r: Result<
        u8,
        Error,
    >)
        requires
            Operation::OR.spec_accepts(mode) ==> operand_byte_ok(mode, bytes[1]),
        ensures
            (Outcome { result: r, after: final(self)@ }) == old(self)@.run_or(mode, bytes, not),
    {
        match mode {
            AddressingMode::R1I1 => {
                if not {
                    self.nor_imm8(first_register(bytes[1]), bytes[2]);
                } else {
                    self.or_imm8(first_register(bytes[1]), bytes[2]);
                }
                Ok(3)
            },
            AddressingMode::R2I0 => {
                if not {
                    self.nor_reg(first_register(bytes[1]), second_register(bytes[1]));
                } else {
                    self.or_reg(first_register(bytes[1]), second_register(bytes[1]));
                }
                Ok(2)
            },
            _ => Err(Error::InvalidAddressingMode),
        }
    }

    /// AND: ands an immediate or a register into a register.
    fn and(&mut self, mode: AddressingMode, bytes: [u8; 4]) -> (r: Result<u8, Error>)
        requires
            Operation::AND.spec_accepts(mode) ==> operand_byte_ok(mode, bytes[1]),
        ensures
            (Outcome { result: r, after: final(self)@ }) == old(self)@.run_and(mode, bytes),
    {
        match mode {
            AddressingMode::R1I1 => {
                self.and_imm8(first_register(bytes[1]), bytes[2]);
                Ok(3)
            },
            AddressingMode::R2I0 => {
                self.and_reg(first_register(bytes[1]), second_register(bytes[1]));
                Ok(2)
            },
            _ => Err(Error::InvalidAddressingMode),
        }
    }

    /// BANK: selects the memory bank held in a register or given as an
    /// immediate.
    fn bank(&mut self, mode: AddressingMode, bytes: [u8; 4]) -> (r: Result<u8, Error>)
        requires
            old(self)@.wf(),
            Operation::BANK.spec_accepts(mode) ==> operand_byte_ok(mode, bytes[1]),
        ensures
            final(self)@.wf(),
            (Outcome { result: r, after: final(self)@ }) == old(self)@.run_bank(mode, bytes),
    {
        let val: u8 = match mode {
            AddressingMode::R1I0 => self.reg[first_register(bytes[1]).index()],
            AddressingMode::R0I1 => bytes[1],
            _ => {
                return Err(Error::InvalidAddressingMode);
            },
        };
        match self.select_bank(val) {
            Ok(()) => Ok(2),
            Err(e) => Err(e),
        }
    }
}

} // verus!
