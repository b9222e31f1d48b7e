//! The operations, their addressing modes and the decoder of the first
//! instruction byte.

use vstd::prelude::*;
use crate::error::Error;

verus! {

/// The fifteen operations, in the order of their codes 0 to 14.
#[derive(Clone, Copy, Debug, PartialEq, Eq, Structural)]
pub enum Operation {
    MOV,
    JNZ,
    LW,
    SW,
    PUSH,
    POP,
    IN,
    OUT,
    ADC,
    SBB,
    CMP,
    AND,
    OR,
    NOR,
    BANK,
}

/// How many register and immediate operands follow the first byte.
///
/// The codes are 0 for `R1I0`, 1 for `R0I1`, 2 for `R1I1` and 3 for `R2I0`.
#[derive(Clone, Copy, Debug, PartialEq, Eq, Structural)]
pub enum AddressingMode {
    /// One register; the second operand is implied.
    R1I0,
    /// No register, one immediate byte.
    R0I1,
    /// One register and an immediate.
    R1I1,
    /// Two registers packed into one byte.
    R2I0,
}

/// The operation code held in the top six bits of the first byte.
pub open spec fn opcode(first: u8) -> u8 {
    first >> 2
}

/// The mode code held in the bottom two bits of the first byte.
pub open spec fn mode_code(first: u8) -> u8 {
    first & 0b11
}

impl Operation {
    /// The operation with the given code, if the code is at most 14.
    pub open spec fn spec_from_code(code: u8) -> Option<Operation> {
        if code == 0 {
            Some(Operation::MOV)
        } else if code == 1 {
            Some(Operation::JNZ)
        } else if code == 2 {
            Some(Operation::LW)
        } else if code == 3 {
            Some(Operation::SW)
        } else if code == 4 {
            Some(Operation::PUSH)
        } else if code == 5 {
            Some(Operation::POP)
        } else if code == 6 {
            Some(Operation::IN)
        } else if code == 7 {
            Some(Operation::OUT)
        } else if code == 8 {
            Some(Operation::ADC)
        } else if code == 9 {
            Some(Operation::SBB)
        } else if code == 10 {
            Some(Operation::CMP)
        } else if code == 11 {
            Some(Operation::AND)
        } else if code == 12 {
            Some(Operation::OR)
        } else if code == 13 {
            Some(Operation::NOR)
        } else if code == 14 {
            Some(Operation::BANK)
        } else {
            None
        }
    }

    /// The operation's code, 0 to 14.
    pub open spec fn spec_code(self) -> u8 {
        match self {
            Operation::MOV => 0,
            Operation::JNZ => 1,
            Operation::LW => 2,
            Operation::SW => 3,
            Operation::PUSH => 4,
            Operation::POP => 5,
            Operation::IN => 6,
            Operation::OUT => 7,
            Operation::ADC => 8,
            Operation::SBB => 9,
            Operation::CMP => 10,
            Operation::AND => 11,
            Operation::OR => 12,
            Operation::NOR => 13,
            Operation::BANK => 14,
        }
    }

    /// Whether the operation takes its operands in `mode`.
    pub open spec fn spec_accepts(self, mode: AddressingMode) -> bool {
        match self {
            Operation::LW | Operation::SW => mode is R1I0 || mode is R1I1,
            Operation::PUSH | Operation::JNZ | Operation::BANK => mode is R1I0 || mode is R0I1,
            Operation::POP => mode is R1I0,
            Operation::MOV
            | Operation::IN
            | Operation::OUT
            | Operation::ADC
            | Operation::SBB
            | Operation::CMP
            | Operation::AND
            | Operation::OR
            | Operation::NOR => mode is R1I1 || mode is R2I0,
        }
    }

    /// The number of bytes that the instruction takes in the stream when it
    /// applies this operation in `mode`: the first byte, one operand byte
    /// where the mode names a register or the operation takes its immediate
    /// there, and the immediate bytes. 0 where the operation does not take
    /// the mode.
    pub open spec fn spec_length(self, mode: AddressingMode) -> u8 {
        if !self.spec_accepts(mode) {
            0
        } else {
            match self {
                Operation::LW | Operation::SW => if mode is R1I1 {
                    4
                } else {
                    2
                },
                Operation::PUSH | Operation::POP | Operation::BANK => 2,
                Operation::JNZ => if mode is R1I0 {
                    2
                } else {
                    1
                },
                _ => if mode is R1I1 {
                    3
                } else {
                    2
                },
            }
        }
    }

    /// The operation with the given code; `None` above 14.
    #[verifier::when_used_as_spec(spec_from_code)]
    pub fn from_code(code: u8) -> (op: Option<Operation>)
        ensures
            op == Self::spec_from_code(code),
            op is Some <==> code <= 14,
            op is Some ==> op->0.spec_code() == code,
    {
        match code {
            0 => Some(Operation::MOV),
            1 => Some(Operation::JNZ),
            2 => Some(Operation::LW),
            3 => Some(Operation::SW),
            4 => Some(Operation::PUSH),
            5 => Some(Operation::POP),
            6 => Some(Operation::IN),
            7 => Some(Operation::OUT),
            8 => Some(Operation::ADC),
            9 => Some(Operation::SBB),
            10 => Some(Operation::CMP),
            11 => Some(Operation::AND),
            12 => Some(Operation::OR),
            13 => Some(Operation::NOR),
            14 => Some(Operation::BANK),
            _ => None,
        }
    }

    /// The operation's code, 0 to 14.
    #[verifier::when_used_as_spec(spec_code)]
    pub fn code(self) -> (code: u8)
        ensures
            code == self.spec_code(),
            code <= 14,
    {
        match self {
            Operation::MOV => 0,
            Operation::JNZ => 1,
            Operation::LW => 2,
            Operation::SW => 3,
            Operation::PUSH => 4,
            Operation::POP => 5,
            Operation::IN => 6,
            Operation::OUT => 7,
            Operation::ADC => 8,
            Operation::SBB => 9,
            Operation::CMP => 10,
            Operation::AND => 11,
            Operation::OR => 12,
            Operation::NOR => 13,
            Operation::BANK => 14,
        }
    }

    /// The number of bytes of the instruction that applies this operation
    /// in `mode`; 0 where the operation does not take the mode.
    #[verifier::when_used_as_spec(spec_length)]
    pub fn length(self, mode: AddressingMode) -> (len: u8)
        ensures
            len == self.spec_length(mode),
            len <= 4,
            len == 0 <==> !self.spec_accepts(mode),
    {
        if !self.accepts(mode) {
            return 0;
        }
        match self {
            Operation::LW | Operation::SW => match mode {
                AddressingMode::R1I1 => 4,
                _ => 2,
            },
            Operation::PUSH | Operation::POP | Operation::BANK => 2,
            Operation::JNZ => match mode {
                AddressingMode::R1I0 => 2,
                _ => 1,
            },
            _ => match mode {
                AddressingMode::R1I1 => 3,
                _ => 2,
            },
        }
    }

    /// Whether the operation takes its operands in `mode`.
    #[verifier::when_used_as_spec(spec_accepts)]
    pub fn accepts(self, mode: AddressingMode) -> (ok: bool)
        ensures
            ok == self.spec_accepts(mode),
    {
        match self {
            Operation::LW | Operation::SW => match mode {
                AddressingMode::R1I0 | AddressingMode::R1I1 => true,
                _ => false,
            },
            Operation::PUSH | Operation::JNZ | Operation::BANK => match mode {
                AddressingMode::R1I0 | AddressingMode::R0I1 => true,
                _ => false,
            },
            Operation::POP => match mode {
                AddressingMode::R1I0 => true,
                _ => false,
            },
            _ => match mode {
                AddressingMode::R1I1 | AddressingMode::R2I0 => true,
                _ => false,
            },
        }
    }
}

impl AddressingMode {
    /// The mode with the given two-bit code.
    pub open spec fn spec_from_code(code: u8) -> AddressingMode {
        if code == 0 {
            AddressingMode::R1I0
        } else if code == 1 {
            AddressingMode::R0I1
        } else if code == 2 {
            AddressingMode::R1I1
        } else {
            AddressingMode::R2I0
        }
    }

    /// The mode's two-bit code.
    pub open spec fn spec_code(self) -> u8 {
        match self {
            AddressingMode::R1I0 => 0,
            AddressingMode::R0I1 => 1,
            AddressingMode::R1I1 => 2,
            AddressingMode::R2I0 => 3,
        }
    }

    /// The mode named by the bottom two bits of `first`; the other bits are
    /// ignored.
    pub fn from_byte(first: u8) -> (mode: AddressingMode)
        ensures
            mode == Self::spec_from_code(mode_code(first)),
            mode.spec_code() == mode_code(first),
    {
        let code: u8 = first & 0b11;
        assert(code <= 3) by (bit_vector)
            requires
                code == first & 0b11,
        ;
        match code {
            0 => AddressingMode::R1I0,
            1 => AddressingMode::R0I1,
            2 => AddressingMode::R1I1,
            _ => AddressingMode::R2I0,
        }
    }

    /// The mode's two-bit code.
    #[verifier::when_used_as_spec(spec_code)]
    pub fn code(self) -> (code: u8)
        ensures
            code == self.spec_code(),
            code <= 3,
    {
        match self {
            AddressingMode::R1I0 => 0,
            AddressingMode::R0I1 => 1,
            AddressingMode::R1I1 => 2,
            AddressingMode::R2I0 => 3,
        }
    }
}

/// What the first instruction byte decodes to: the operation named by its
/// top six bits and the mode named by its bottom two, or the reason why it
/// names none.
pub open spec fn decoded(first: u8) -> Result<(Operation, AddressingMode), Error> {
    let mode = AddressingMode::spec_from_code(mode_code(first));
    match Operation::spec_from_code(opcode(first)) {
        None => Err(Error::InvalidOperation),
        Some(op) => if op.spec_accepts(mode) {
            Ok((op, mode))
        } else {
            Err(Error::InvalidAddressingMode)
        },
    }
}

/// Decodes a four-byte instruction window.
///
/// Only the first byte decides. The window is refused with
/// `InvalidOperation` when its code is above 14, and with
/// `InvalidAddressingMode` when the operation does not take the mode.
pub fn decode(bytes: [u8; 4]) -> (r: Result<(Operation, AddressingMode), Error>)
    ensures
        r == decoded(bytes[0]),
        r matches Ok((op, mode)) ==> op.spec_code() == opcode(bytes[0]) && mode.spec_code()
            == mode_code(bytes[0]) && op.spec_accepts(mode),
        r matches Err(e) ==> e == Error::InvalidOperation || e == Error::InvalidAddressingMode,
        r == Err::<(Operation, AddressingMode), Error>(Error::InvalidOperation) <==> opcode(
            bytes[0],
        ) > 14,
        r == Err::<(Operation, AddressingMode), Error>(Error::InvalidAddressingMode) <==> opcode(
            bytes[0],
        ) <= 14 && !Operation::spec_from_code(opcode(bytes[0]))->0.spec_accepts(
            AddressingMode::spec_from_code(mode_code(bytes[0])),
        ),
{
    let first: u8 = bytes[0];
    let mode = AddressingMode::from_byte(first);
    match Operation::from_code(first >> 2) {
        None => Err(Error::InvalidOperation),
        Some(op) => {
            if op.accepts(mode) {
                Ok((op, mode))
            } else {
                Err(Error::InvalidAddressingMode)
            }
        },
    }
}

/// The first byte of the instruction that applies `op` in `mode`.
pub fn encode(op: Operation, mode: AddressingMode) -> (first: u8)
    ensures
        first == 4 * op.spec_code() + mode.spec_code(),
        opcode(first) == op.spec_code(),
        mode_code(first) == mode.spec_code(),
        Operation::spec_from_code(opcode(first)) == Some(op),
        AddressingMode::spec_from_code(mode_code(first)) == mode,
{
    let c: u8 = op.code();
    let m: u8 = mode.code();
    let first: u8 = (c << 2) | m;
    assert(first >> 2 == c && first & 0b11 == m && first == 4 * c + m) by (bit_vector)
        requires
            c <= 14,
            m <= 3,
            first == (c << 2) | m,
    ;
    first
}

/// Decoding the first byte that `encode` makes gives the operation and the
/// mode back, where the operation takes the mode, and
/// `InvalidAddressingMode` where it does not.
pub proof fn lemma_encode_decode(op: Operation, mode: AddressingMode)
    ensures
        4 * op.spec_code() + mode.spec_code() <= u8::MAX,
        decoded((4 * op.spec_code() + mode.spec_code()) as u8) == if op.spec_accepts(mode) {
            Ok::<(Operation, AddressingMode), Error>((op, mode))
        } else {
            Err::<(Operation, AddressingMode), Error>(Error::InvalidAddressingMode)
        },
{
    let c: u8 = op.spec_code();
    let m: u8 = mode.spec_code();
    let first: u8 = (4 * c + m) as u8;
    assert(first >> 2 == c && first & 0b11 == m) by (bit_vector)
        requires
            c <= 14,
            m <= 3,
            first == 4 * c + m,
    ;
}

/// Every first byte decodes, or is refused for one of two reasons: its top
/// six bits name no operation, or the operation they name does not take the
/// mode in its bottom two bits.
pub proof fn lemma_decode_total(first: u8)
    ensures
        opcode(first) <= 63,
        mode_code(first) <= 3,
        opcode(first) > 14 <==> decoded(first) == Err::<(Operation, AddressingMode), Error>(
            Error::InvalidOperation,
        ),
        decoded(first) matches Ok((op, mode)) ==> op.spec_code() == opcode(first)
            && mode.spec_code() == mode_code(first) && op.spec_accepts(mode),
        decoded(first) matches Err(e) ==> e == Error::InvalidOperation || e
            == Error::InvalidAddressingMode,
{
    assert(first >> 2 <= 63 && first & 0b11 <= 3) by (bit_vector);
}

} // verus!
