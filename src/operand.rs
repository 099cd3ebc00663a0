//! Registers, branch conditions and addressing modes named by instructions.
use vstd::prelude::*;

verus! {

#[derive(Clone, Copy, Debug, PartialEq, Eq)]
pub enum Register {
    A,
    F,
    AF,
    B,
    C,
    BC,
    D,
    E,
    DE,
    H,
    L,
    HL,
    SP,
}

/// Branch conditions over the `Z` and `C` flags.
#[derive(Clone, Copy, Debug, PartialEq, Eq)]
pub enum Condition {
    NZ,
    Z,
    NC,
    C,
}

/// Where an operand comes from or goes to.
#[derive(Clone, Copy, Debug, PartialEq, Eq)]
pub enum AddressingMode {
    /// `n`: the byte after the opcode.
    Immediate,
    /// `nn`: the little-endian word after the opcode.
    ImmediateExtended,
    /// `e`: a signed byte after the opcode, added to `PC`.
    Relative,
    /// `(n)`: the byte at `0xFF00 + n`.
    Indirect,
    /// `(nn)`: the byte at the word after the opcode.
    Extended,
    /// A register, 8 or 16 bits wide.
    Register(Register),
    /// The byte at the address a register holds (`(C)` means `0xFF00 + C`).
    RegisterIndirect(Register),
    /// `(HL+)`: the byte at `HL`, then `HL` is incremented.
    RegisterIndirectPostIncrement(Register),
    /// `(HL-)`: the byte at `HL`, then `HL` is decremented.
    RegisterIndirectPostDecrement(Register),
    /// `SP+e`.
    AdjustedStackPointer,
}

impl AddressingMode {
    /// Operands that name a 16-bit register.
    pub open spec fn spec_is_wide(self) -> bool {
        match self {
            AddressingMode::Register(r) => r == Register::AF || r == Register::BC || r
                == Register::DE || r == Register::HL || r == Register::SP,
            _ => false,
        }
    }

    pub fn is_wide(&self) -> (r: bool)
        ensures
            r == self.spec_is_wide(),
    {
        match self {
            AddressingMode::Register(r) => match r {
                Register::AF | Register::BC | Register::DE | Register::HL | Register::SP => true,
                _ => false,
            },
            _ => false,
        }
    }
}

} // verus!
