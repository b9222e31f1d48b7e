//! The register file's names and the bits of the flags register.

use vstd::prelude::*;

verus! {

/// Number of registers in the file.
pub const REGISTERS: usize = 8;

/// Flag bit 0: the last compare found the left operand smaller.
pub const LESS: u8 = 0b0001;

/// Flag bit 1: the last compare found both operands equal.
pub const EQUAL: u8 = 0b0010;

/// Flag bit 2: the last add carried out of eight bits.
pub const CARRY: u8 = 0b0100;

/// Flag bit 3: the last subtract borrowed.
pub const BORROW: u8 = 0b1000;

/// One of the eight 8-bit registers, in index order.
///
/// `A` to `D` are general purpose, `Z` is scratch, `X` and `Y` are the low
/// and the high byte of the address pair, and `F` holds the flags.
#[derive(Clone, Copy, Debug, PartialEq, Eq, Structural)]
pub enum Register {
    A,
    B,
    C,
    D,
    Z,
    X,
    Y,
    F,
}

impl Register {
    /// The register's fixed index, 0 to 7.
    pub open spec fn spec_index(self) -> int {
        match self {
            Register::A => 0,
            Register::B => 1,
            Register::C => 2,
            Register::D => 3,
            Register::Z => 4,
            Register::X => 5,
            Register::Y => 6,
            Register::F => 7,
        }
    }

    /// The register with index `i`, if there is one.
    pub open spec fn spec_from_index(i: u8) -> Option<Register> {
        if i == 0 {
            Some(Register::A)
        } else if i == 1 {
            Some(Register::B)
        } else if i == 2 {
            Some(Register::C)
        } else if i == 3 {
            Some(Register::D)
        } else if i == 4 {
            Some(Register::Z)
        } else if i == 5 {
            Some(Register::X)
        } else if i == 6 {
            Some(Register::Y)
        } else if i == 7 {
            Some(Register::F)
        } else {
            None
        }
    }

    /// The register's fixed index, 0 to 7.
    pub fn index(self) -> (i: usize)
        ensures
            i == self.spec_index(),
            i < REGISTERS,
    {
        match self {
            Register::A => 0,
            Register::B => 1,
            Register::C => 2,
            Register::D => 3,
            Register::Z => 4,
            Register::X => 5,
            Register::Y => 6,
            Register::F => 7,
        }
    }

    /// The register with index `i`; `None` for 8 and above.
    #[verifier::when_used_as_spec(spec_from_index)]
    pub fn from_index(i: u8) -> (r: Option<Register>)
        ensures
            r == Self::spec_from_index(i),
            r is Some <==> i < 8,
            r is Some ==> r->0.spec_index() == i,
    {
        match i {
            0 => Some(Register::A),
            1 => Some(Register::B),
            2 => Some(Register::C),
            3 => Some(Register::D),
            4 => Some(Register::Z),
            5 => Some(Register::X),
            6 => Some(Register::Y),
            7 => Some(Register::F),
            _ => None,
        }
    }
}

/// Every register index names exactly one register.
pub proof fn lemma_index_round_trip(r: Register)
    ensures
        0 <= r.spec_index() < 8,
        Register::spec_from_index(r.spec_index() as u8) == Some(r),
{
}

/// Two registers with the same index are the same register.
pub proof fn lemma_index_injective(a: Register, b: Register)
    ensures
        a.spec_index() == b.spec_index() <==> a == b,
        0 <= a.spec_index() < 8,
{
}

} // verus!
