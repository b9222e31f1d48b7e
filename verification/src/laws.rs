//! Laws of the machine: what holds of every state and of every run of
//! several operations.

use vstd::prelude::*;
use crate::device::{lemma_added, lemma_removed, lemma_with_device, Device, Latch};
use crate::error::Error;
use crate::machine::{
    borrow_in, carry_in, first_reg, operand_byte_ok, operands_ok, second_reg, Machine, Outcome,
};
use crate::mem::{in_window, MemView, STACK, STACK_END};
use crate::op::{decoded, mode_code, opcode, AddressingMode, Operation};
use crate::reg::{lemma_index_injective, Register, BORROW, CARRY, EQUAL, LESS};

verus! {

/// ADC computes `lhs + rhs + carry` modulo 256 and sets the carry flag
/// exactly when the sum is 256 or more. It leaves the other three flags and
/// every other register as they were. Stated for every register but F,
/// which holds the carry itself.
pub proof fn lemma_adc<D: Device>(m: Machine<D>, lhs: Register, rhs: u8)
    requires
        m.wf(),
        lhs != Register::F,
    ensures
        m.adc(lhs, rhs).get(lhs) == (m.get(lhs) + rhs + carry_in(m.get(Register::F))) % 256,
        m.adc(lhs, rhs).get(Register::F) & CARRY != 0 <==> m.get(lhs) + rhs + carry_in(
            m.get(Register::F),
        ) >= 256,
        m.adc(lhs, rhs).get(Register::F) & 0b1011 == m.get(Register::F) & 0b1011,
        forall|r: Register|
            r != lhs && r != Register::F ==> #[trigger] m.adc(lhs, rhs).get(r) == m.get(r),
        m.adc(lhs, rhs) == (Machine { reg: m.adc(lhs, rhs).reg, ..m }),
        m.adc(lhs, rhs).wf(),
{
    let f = m.get(Register::F);
    assert((f | 0b0100) & 0b0100 != 0 && (f & 0b1011) & 0b0100 == 0 && (f | 0b0100) & 0b1011 == f
        & 0b1011 && (f & 0b1011) & 0b1011 == f & 0b1011) by (bit_vector);
}

/// SBB computes `lhs - rhs - borrow` modulo 256 and sets the borrow flag
/// exactly when the difference is below 0. It leaves the other three flags
/// and every other register as they were. Stated for every register but F,
/// which holds the borrow itself.
pub proof fn lemma_sbb<D: Device>(m: Machine<D>, lhs: Register, rhs: u8)
    requires
        m.wf(),
        lhs != Register::F,
    ensures
        m.sbb(lhs, rhs).get(lhs) == (m.get(lhs) - rhs - borrow_in(m.get(Register::F))) % 256,
        m.sbb(lhs, rhs).get(Register::F) & BORROW != 0 <==> m.get(lhs) - rhs - borrow_in(
            m.get(Register::F),
        ) < 0,
        m.sbb(lhs, rhs).get(Register::F) & 0b0111 == m.get(Register::F) & 0b0111,
        forall|r: Register|
            r != lhs && r != Register::F ==> #[trigger] m.sbb(lhs, rhs).get(r) == m.get(r),
        m.sbb(lhs, rhs) == (Machine { reg: m.sbb(lhs, rhs).reg, ..m }),
        m.sbb(lhs, rhs).wf(),
{
    let f = m.get(Register::F);
    assert((f | 0b1000) & 0b1000 != 0 && (f & 0b0111) & 0b1000 == 0 && (f | 0b1000) & 0b0111 == f
        & 0b0111 && (f & 0b0111) & 0b0111 == f & 0b0111) by (bit_vector);
}

/// A compare sets the equal flag exactly when the register equals the
/// other operand and the less flag exactly when it is smaller, both taken
/// as numbers from 0 to 255. It clears the carry and the borrow flag and
/// changes nothing but the flags register: an operand is as it was unless
/// it is the flags register itself.
pub proof fn lemma_compare<D: Device>(m: Machine<D>, lhs: Register, rhs: u8)
    requires
        m.wf(),
    ensures
        m.compare(lhs, rhs).get(Register::F) & EQUAL != 0 <==> m.get(lhs) == rhs,
        m.compare(lhs, rhs).get(Register::F) & LESS != 0 <==> m.get(lhs) < rhs,
        m.compare(lhs, rhs).get(Register::F) & CARRY == 0,
        m.compare(lhs, rhs).get(Register::F) & BORROW == 0,
        forall|r: Register| r != Register::F ==> #[trigger] m.compare(lhs, rhs).get(r) == m.get(r),
        m.compare(lhs, rhs) == (Machine { reg: m.compare(lhs, rhs).reg, ..m }),
        m.compare(lhs, rhs).wf(),
{
    assert(0b0010u8 & 0b0010 != 0 && 0b0010u8 & 0b0001 == 0 && 0b0001u8 & 0b0001 != 0 && 0b0001u8
        & 0b0010 == 0 && 0u8 & 0b0001 == 0 && 0u8 & 0b0010 == 0 && 0b0010u8 & 0b0100 == 0
        && 0b0010u8 & 0b1000 == 0 && 0b0001u8 & 0b0100 == 0 && 0b0001u8 & 0b1000 == 0 && 0u8
        & 0b0100 == 0 && 0u8 & 0b1000 == 0) by (bit_vector);
}

/// A branch whose condition is not zero has length 0 and moves the program
/// counter to the address in X, Y; one whose condition is zero has the
/// length of the instruction, 2, and changes nothing. Where the
/// instruction names no register the condition is 1, so the branch is
/// taken.
pub proof fn lemma_branch<D: Device>(m: Machine<D>, mode: AddressingMode, bytes: [u8; 4])
    requires
        m.wf(),
        mode is R1I0 || mode is R0I1,
    ensures
        m.run_jnz(mode, bytes).after == m.jump(
            if mode is R1I0 {
                m.get(first_reg(bytes[1]))
            } else {
                1u8
            },
        ),
        mode is R0I1 || m.get(first_reg(bytes[1])) != 0 ==> m.run_jnz(
            mode,
            bytes,
        ).result == Ok::<u8, Error>(0) && m.run_jnz(mode, bytes).after == (Machine {
            pc: m.xy(),
            ..m
        }),
        mode is R1I0 && m.get(first_reg(bytes[1])) == 0 ==> m.run_jnz(
            mode,
            bytes,
        ).result == Ok::<u8, Error>(2) && m.run_jnz(mode, bytes).after == m,
{
}

/// Banks are isolated inside the window: a byte stored there under one
/// bank is not seen under another bank, the built-in memory included.
pub proof fn lemma_bank_isolation(m: MemView, writer: u8, reader: u8, addr: u16, val: u8)
    requires
        m.wf(),
        writer <= m.banks.len(),
        reader <= m.banks.len(),
        writer != reader,
        in_window(addr),
        m.select(writer)->Ok_0.write(addr, val) is Ok,
    ensures
        m.select(writer)->Ok_0.write(addr, val)->Ok_0.select(reader)->Ok_0.read(addr) == m.select(
            reader,
        )->Ok_0.read(addr),
        m.select(writer)->Ok_0.write(addr, val)->Ok_0.wf(),
{
}

/// Outside the window all banks share the built-in memory: a byte stored
/// there under one bank is read back under every bank.
pub proof fn lemma_shared_memory(m: MemView, writer: u8, reader: u8, addr: u16, val: u8)
    requires
        m.wf(),
        writer <= m.banks.len(),
        reader <= m.banks.len(),
        !in_window(addr),
    ensures
        m.select(writer)->Ok_0.write(addr, val) is Ok,
        m.select(writer)->Ok_0.write(addr, val)->Ok_0.select(reader)->Ok_0.read(addr) == Ok::<
            u8,
            Error,
        >(val),
{
}

/// A byte that was stored is read back from the same address while the
/// same bank is active, and a store changes no other address of that bank.
pub proof fn lemma_read_after_write(m: MemView, addr: u16, val: u8, other: u16)
    requires
        m.wf(),
        m.write(addr, val) is Ok,
    ensures
        m.write(addr, val)->Ok_0.wf(),
        m.write(addr, val)->Ok_0.read(addr) == Ok::<u8, Error>(val),
        other != addr ==> m.write(addr, val)->Ok_0.read(other) == m.read(other),
{
}

/// The machine after the bytes of `vals` were pushed one after the other,
/// or the first failure.
pub open spec fn pushed<D: Device>(m: Machine<D>, vals: Seq<u8>) -> Result<Machine<D>, Error>
    decreases vals.len(),
{
    if vals.len() == 0 {
        Ok(m)
    } else {
        match m.push(vals[0]) {
            Ok(next) => pushed(next, vals.drop_first()),
            Err(e) => Err(e),
        }
    }
}

/// The machine after one pop into each register of `regs`, in their order,
/// or the first failure.
pub open spec fn popped<D: Device>(m: Machine<D>, regs: Seq<Register>) -> Result<
    Machine<D>,
    Error,
>
    decreases regs.len(),
{
    if regs.len() == 0 {
        Ok(m)
    } else {
        match popped(m, regs.drop_last()) {
            Ok(before) => before.pop(regs.last()),
            Err(e) => Err(e),
        }
    }
}

/// The memory with the `n` cells above `sp` zeroed in the built-in memory.
pub open spec fn cleared(mem: MemView, sp: u16, n: nat) -> MemView {
    MemView {
        base: Seq::new(
            mem.base.len(),
            |a: int|
                if sp < a <= sp + n {
                    0u8
                } else {
                    mem.base[a]
                },
        ),
        ..mem
    }
}

/// The registers after each register of `regs` took the byte of `bytes` at
/// its own position, in their order.
pub open spec fn assigned(reg: Seq<u8>, regs: Seq<Register>, bytes: Seq<u8>) -> Seq<u8>
    decreases regs.len(),
{
    if regs.len() == 0 || bytes.len() != regs.len() {
        reg
    } else {
        assigned(reg, regs.drop_last(), bytes.drop_last()).update(
            regs.last().spec_index(),
            bytes.last(),
        )
    }
}

/// With the stack pointer in the stack region and below its end, a push
/// succeeds: it fills the cell above the stack pointer in the built-in
/// memory, whatever bank is active, and moves the stack pointer there.
pub proof fn lemma_push<D: Device>(m: Machine<D>, val: u8)
    requires
        m.wf(),
        m.in_stack(),
        m.sp < STACK_END,
    ensures
        m.push(val) == Ok::<Machine<D>, Error>(
            Machine {
                sp: (m.sp + 1) as u16,
                mem: MemView { base: m.mem.base.update(m.sp + 1, val), ..m.mem },
                ..m
            },
        ),
        m.push(val)->Ok_0.wf(),
        m.push(val)->Ok_0.in_stack(),
{
    assert(!in_window((m.sp + 1) as u16));
}

/// With the stack pointer in the stack region and above its start, a pop
/// succeeds: the register takes the byte at the stack pointer, that cell
/// of the built-in memory is zeroed, and the stack pointer moves down.
pub proof fn lemma_pop<D: Device>(m: Machine<D>, to: Register)
    requires
        m.wf(),
        m.in_stack(),
        m.sp > STACK,
    ensures
        m.pop(to) == Ok::<Machine<D>, Error>(
            Machine {
                reg: m.reg.update(to.spec_index(), m.mem.base[m.sp as int]),
                sp: (m.sp - 1) as u16,
                mem: MemView { base: m.mem.base.update(m.sp as int, 0), ..m.mem },
                ..m
            },
        ),
        m.pop(to)->Ok_0.wf(),
        m.pop(to)->Ok_0.in_stack(),
{
    assert(!in_window(m.sp));
}

/// With room for all of `vals`, every push succeeds. The bytes lie above
/// the old stack pointer in the order of the pushes, and nothing else has
/// changed.
pub proof fn lemma_pushed<D: Device>(m: Machine<D>, vals: Seq<u8>)
    requires
        m.wf(),
        m.in_stack(),
        m.sp + vals.len() <= STACK_END,
    ensures
        pushed(m, vals) == Ok::<Machine<D>, Error>(
            Machine {
                sp: (m.sp + vals.len()) as u16,
                mem: MemView {
                    base: Seq::new(
                        m.mem.base.len(),
                        |a: int|
                            if m.sp < a <= m.sp + vals.len() {
                                vals[a - m.sp - 1]
                            } else {
                                m.mem.base[a]
                            },
                    ),
                    ..m.mem
                },
                ..m
            },
        ),
        pushed(m, vals)->Ok_0.wf(),
        pushed(m, vals)->Ok_0.in_stack(),
    decreases vals.len(),
{
    let goal = Machine {
        sp: (m.sp + vals.len()) as u16,
        mem: MemView {
            base: Seq::new(
                m.mem.base.len(),
                |a: int|
                    if m.sp < a <= m.sp + vals.len() {
                        vals[a - m.sp - 1]
                    } else {
                        m.mem.base[a]
                    },
            ),
            ..m.mem
        },
        ..m
    };
    if vals.len() == 0 {
        assert(goal.mem.base =~= m.mem.base);
        assert(goal =~= m);
    } else {
        lemma_push(m, vals[0]);
        let m1 = m.push(vals[0])->Ok_0;
        let rest = vals.drop_first();
        lemma_pushed(m1, rest);
        let got = pushed(m1, rest)->Ok_0;
        assert(pushed(m, vals) == pushed(m1, rest));
        assert(got.mem.base =~= goal.mem.base);
        assert(got =~= goal);
    }
}

/// As many pops as pushes give the pushed bytes back in reverse order and
/// leave the stack pointer where it was.
///
/// With the stack pointer in the stack region and room for all of `vals`,
/// every push and every pop succeeds. The first pop takes the byte of the
/// last push, and so on. At the end the cells that the pushes filled are
/// zero again, and nothing else but the registers popped into has changed.
pub proof fn lemma_push_pop<D: Device>(m: Machine<D>, vals: Seq<u8>, regs: Seq<Register>)
    requires
        m.wf(),
        m.in_stack(),
        m.sp + vals.len() <= STACK_END,
        regs.len() == vals.len(),
    ensures
        pushed(m, vals) is Ok,
        popped(pushed(m, vals)->Ok_0, regs) == Ok::<Machine<D>, Error>(
            Machine {
                reg: assigned(m.reg, regs, vals.reverse()),
                mem: cleared(m.mem, m.sp, vals.len()),
                ..m
            },
        ),
        popped(pushed(m, vals)->Ok_0, regs)->Ok_0.sp == m.sp,
        popped(pushed(m, vals)->Ok_0, regs)->Ok_0.wf(),
    decreases vals.len(),
{
    lemma_pushed(m, vals);
    let goal = Machine {
        reg: assigned(m.reg, regs, vals.reverse()),
        mem: cleared(m.mem, m.sp, vals.len()),
        ..m
    };
    if vals.len() == 0 {
        assert(goal.mem.base =~= m.mem.base);
        assert(goal =~= m);
    } else {
        lemma_push(m, vals[0]);
        let m1 = m.push(vals[0])->Ok_0;
        let rest = vals.drop_first();
        let early = regs.drop_last();
        lemma_pushed(m1, rest);
        lemma_push_pop(m1, rest, early);
        let top = pushed(m1, rest)->Ok_0;
        assert(pushed(m, vals) == pushed(m1, rest));
        let q1 = popped(top, early)->Ok_0;
        assert(q1.sp == m.sp + 1);
        assert(q1.mem.base[q1.sp as int] == vals[0]);
        lemma_pop(q1, regs.last());
        let q = q1.pop(regs.last())->Ok_0;
        assert(popped(top, regs) == q1.pop(regs.last()));
        assert(vals.reverse().drop_last() =~= rest.reverse());
        assert(vals.reverse().last() == vals[0]);
        assert(q.reg == goal.reg);
        assert(q.mem.base =~= goal.mem.base);
        assert(q =~= goal);
    }
}

/// Where the registers `regs` took the bytes `bytes`, position by
/// position, the byte at position `k` is still in its register at the end
/// unless a later position names the same register.
pub proof fn lemma_assigned_kept(reg: Seq<u8>, regs: Seq<Register>, bytes: Seq<u8>, k: int)
    requires
        reg.len() == 8,
        regs.len() == bytes.len(),
        0 <= k < regs.len(),
        forall|j: int| k < j < regs.len() ==> regs[j] != regs[k],
    ensures
        assigned(reg, regs, bytes).len() == 8,
        assigned(reg, regs, bytes)[regs[k].spec_index()] == bytes[k],
    decreases regs.len(),
{
    lemma_assigned_len(reg, regs.drop_last(), bytes.drop_last());
    lemma_index_injective(regs.last(), regs[k]);
    if k < regs.len() - 1 {
        let early = regs.drop_last();
        assert forall|j: int| k < j < early.len() implies early[j] != early[k] by {
            assert(early[j] == regs[j]);
        }
        lemma_assigned_kept(reg, early, bytes.drop_last(), k);
        assert(regs[regs.len() - 1] != regs[k]);
    }
}

/// A register that none of the positions names is as it was.
pub proof fn lemma_assigned_other(reg: Seq<u8>, regs: Seq<Register>, bytes: Seq<u8>, r: Register)
    requires
        reg.len() == 8,
        regs.len() == bytes.len(),
        forall|j: int| 0 <= j < regs.len() ==> regs[j] != r,
    ensures
        assigned(reg, regs, bytes)[r.spec_index()] == reg[r.spec_index()],
    decreases regs.len(),
{
    if regs.len() > 0 {
        let early = regs.drop_last();
        lemma_assigned_len(reg, early, bytes.drop_last());
        lemma_index_injective(regs.last(), r);
        assert forall|j: int| 0 <= j < early.len() implies early[j] != r by {
            assert(early[j] == regs[j]);
        }
        lemma_assigned_other(reg, early, bytes.drop_last(), r);
        assert(regs[regs.len() - 1] != r);
    }
}

/// Assigning keeps the number of registers.
pub proof fn lemma_assigned_len(reg: Seq<u8>, regs: Seq<Register>, bytes: Seq<u8>)
    requires
        reg.len() == 8,
    ensures
        assigned(reg, regs, bytes).len() == 8,
    decreases regs.len(),
{
    if regs.len() > 0 && bytes.len() == regs.len() {
        lemma_assigned_len(reg, regs.drop_last(), bytes.drop_last());
        lemma_index_injective(regs.last(), regs.last());
    }
}

/// A push at or past the end of the stack fails with `StackOverflow`, and
/// a pop from the empty stack with `StackUnderflow`, whatever else holds.
pub proof fn lemma_stack_limits<D: Device>(m: Machine<D>, val: u8, to: Register)
    ensures
        m.sp >= STACK_END ==> m.push(val) == Err::<Machine<D>, Error>(Error::StackOverflow),
        m.sp <= STACK ==> m.pop(to) == Err::<Machine<D>, Error>(Error::StackUnderflow),
        m.wf() && m.in_stack() && m.sp < STACK_END ==> m.push(val) is Ok,
        m.wf() && m.in_stack() && m.sp > STACK ==> m.pop(to) is Ok,
{
    if m.wf() && m.in_stack() {
        assert(!in_window(m.sp));
        if m.sp < STACK_END {
            assert(!in_window((m.sp + 1) as u16));
        }
    }
}

/// The register-by-register reading of `lemma_push_pop`: after as many
/// pops as pushes, the register of the pop number `k` holds the byte of
/// the push number `len - 1 - k`, unless a later pop went into the same
/// register.
pub proof fn lemma_push_pop_register<D: Device>(
    m: Machine<D>,
    vals: Seq<u8>,
    regs: Seq<Register>,
    k: int,
)
    requires
        m.wf(),
        m.in_stack(),
        m.sp + vals.len() <= STACK_END,
        regs.len() == vals.len(),
        0 <= k < regs.len(),
        forall|j: int| k < j < regs.len() ==> regs[j] != regs[k],
    ensures
        popped(pushed(m, vals)->Ok_0, regs) is Ok,
        popped(pushed(m, vals)->Ok_0, regs)->Ok_0.get(regs[k]) == vals[vals.len() - 1 - k],
{
    lemma_push_pop(m, vals, regs);
    lemma_assigned_kept(m.reg, regs, vals.reverse(), k);
}

/// A device that was registered, then sent a byte by OUT, then asked for
/// one by IN at the same port, went through its own `send` and then its
/// own `receive`: the byte that IN leaves in the register is one that
/// those two hooks allow, in that order.
pub proof fn lemma_round_trip<D: Device>(
    m: Machine<D>,
    name: Seq<char>,
    device: D,
    from: Register,
    into: Register,
    sent: Machine<D>,
    received: Machine<D>,
)
    requires
        m.wf(),
        m.dev.next < 256,
        (Machine { dev: m.dev.added(name, device), ..m }).outputs(from, m.dev.next as u8, sent),
        sent.inputs(into, m.dev.next as u8, received),
    ensures
        D::sends(device, m.snapshot(), m.get(from), sent.dev.device(m.dev.next as u8)),
        D::receives(
            sent.dev.device(m.dev.next as u8),
            sent.snapshot(),
            received.dev.device(m.dev.next as u8),
            received.get(into),
        ),
        sent.snapshot() == m.snapshot(),
        received.wf(),
        received.dev.has(m.dev.next as u8),
{
    let port = m.dev.next as u8;
    lemma_added(m.dev, name, device, port);
    let registered = m.dev.added(name, device);
    lemma_with_device(registered, port, sent.dev.device(port), port);
    lemma_with_device(sent.dev, port, received.dev.device(port), port);
    lemma_index_injective(into, into);
}

/// With a latch at the port, the byte that IN leaves in the register is
/// the byte that OUT sent.
pub proof fn lemma_latch_round_trip(
    m: Machine<Latch>,
    port: u8,
    from: Register,
    into: Register,
    sent: Machine<Latch>,
    received: Machine<Latch>,
)
    requires
        m.wf(),
        m.outputs(from, port, sent),
        sent.inputs(into, port, received),
    ensures
        received.get(into) == m.get(from),
{
    lemma_with_device(m.dev, port, sent.dev.device(port), port);
}

/// After the device at a port was removed, IN and OUT at that port fail
/// with `DeviceNotPresent` and change nothing.
pub proof fn lemma_removed_port<D: Device>(
    m: Machine<D>,
    port: u8,
    mode: AddressingMode,
    bytes: [u8; 4],
    out: Outcome<D>,
)
    requires
        m.wf(),
        m.dev.has(port),
        m.two_operands(mode, bytes) is Some,
        (m.two_operands(mode, bytes)->0).1 == port,
    ensures
        (Machine { dev: m.dev.removed(port), ..m }).runs_in(mode, bytes, out) ==> out == (Outcome {
            result: Err(Error::DeviceNotPresent),
            after: Machine { dev: m.dev.removed(port), ..m },
        }),
        (Machine { dev: m.dev.removed(port), ..m }).runs_out(mode, bytes, out) ==> out == (Outcome {
            result: Err(Error::DeviceNotPresent),
            after: Machine { dev: m.dev.removed(port), ..m },
        }),
{
    lemma_removed(m.dev, port, port);
}

/// What holds of every instruction, whatever it is.
///
/// The machine stays well formed and the stack pointer stays in the stack
/// region. An instruction that fails changes nothing. It fails with
/// `InvalidOperation` exactly when the first byte names no operation, and
/// with `InvalidAddressingMode` only when the operation does not take the
/// mode. One that succeeds decodes, and reports the length that its
/// operation has in its mode; only a branch that was taken reports 0
/// instead, and has then moved the program counter to the address in X, Y.
pub proof fn lemma_executes<D: Device>(m: Machine<D>, bytes: [u8; 4], out: Outcome<D>)
    requires
        m.wf(),
        operands_ok(bytes),
        m.executes(bytes, out),
    ensures
        out.after.wf(),
        m.in_stack() ==> out.after.in_stack(),
        out.result is Err ==> out.after == m,
        out.result == Err::<u8, Error>(Error::InvalidOperation) <==> opcode(bytes[0]) > 14,
        out.result == Err::<u8, Error>(Error::InvalidAddressingMode) ==> decoded(bytes[0]) == Err::<
            (Operation, AddressingMode),
            Error,
        >(Error::InvalidAddressingMode),
        out.result matches Ok(len) ==> decoded(bytes[0]) matches Ok((op, mode)) && (len
            == op.spec_length(mode) || (len == 0 && op == Operation::JNZ && out.after.pc
            == m.xy())),
        out.after.speed == m.speed,
{
    let mode = AddressingMode::spec_from_code(mode_code(bytes[0]));
    match Operation::spec_from_code(opcode(bytes[0])) {
        None => {},
        Some(op) => {
            lemma_performs(m, op, mode, bytes, out);
        },
    }
}

/// What holds of every operation, whatever it is: see `lemma_executes`.
pub proof fn lemma_performs<D: Device>(
    m: Machine<D>,
    op: Operation,
    mode: AddressingMode,
    bytes: [u8; 4],
    out: Outcome<D>,
)
    requires
        m.wf(),
        op.spec_accepts(mode) ==> operand_byte_ok(mode, bytes[1]),
        m.performs(op, mode, bytes, out),
    ensures
        out.after.wf(),
        m.in_stack() ==> out.after.in_stack(),
        out.result is Err ==> out.after == m,
        out.result != Err::<u8, Error>(Error::InvalidOperation),
        out.result == Err::<u8, Error>(Error::InvalidAddressingMode) ==> !op.spec_accepts(mode),
        out.result matches Ok(len) ==> op.spec_accepts(mode) && (len == op.spec_length(mode) || (
        len == 0 && op == Operation::JNZ && out.after.pc == m.xy())),
        out.after.speed == m.speed,
{
    lemma_index_injective(first_reg(bytes[1]), second_reg(bytes[1]));
    match op {
        Operation::IN => {
            if m.two_operands(mode, bytes) is Some {
                let port = (m.two_operands(mode, bytes)->0).1;
                if m.dev.has(port) {
                    lemma_with_device(m.dev, port, out.after.dev.device(port), port);
                }
            }
        },
        Operation::OUT => {
            if m.two_operands(mode, bytes) is Some {
                let port = (m.two_operands(mode, bytes)->0).1;
                if m.dev.has(port) {
                    lemma_with_device(m.dev, port, out.after.dev.device(port), port);
                }
            }
        },
        _ => {},
    }
}

/// The flags stay until an instruction writes them: CMP, ADC and SBB do,
/// and so does any operation that names F as the register it fills. Every
/// other instruction leaves the flags register as it was.
pub proof fn lemma_flags_persist<D: Device>(
    m: Machine<D>,
    op: Operation,
    mode: AddressingMode,
    bytes: [u8; 4],
    out: Outcome<D>,
)
    requires
        m.wf(),
        op.spec_accepts(mode) ==> operand_byte_ok(mode, bytes[1]),
        m.performs(op, mode, bytes, out),
        op != Operation::CMP && op != Operation::ADC && op != Operation::SBB,
        mode is R0I1 || first_reg(bytes[1]) != Register::F,
    ensures
        out.after.get(Register::F) == m.get(Register::F),
{
    lemma_index_injective(first_reg(bytes[1]), Register::F);
}

/// Every operation but IN and OUT leaves one outcome only: what it makes
/// of the machine depends on the machine and the instruction alone.
pub proof fn lemma_one_outcome<D: Device>(
    m: Machine<D>,
    op: Operation,
    mode: AddressingMode,
    bytes: [u8; 4],
    first: Outcome<D>,
    second: Outcome<D>,
)
    requires
        op != Operation::IN,
        op != Operation::OUT,
        m.performs(op, mode, bytes, first),
        m.performs(op, mode, bytes, second),
    ensures
        first == second,
{
}

} // verus!
