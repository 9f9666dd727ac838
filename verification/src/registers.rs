//! The register file's layout and the condition flags.

use vstd::prelude::*;

verus! {

/// Number of words of memory: the whole 16-bit address space.
pub const MEMORY_SIZE: usize = 0x10000;

/// Number of slots in the register file.
pub const REGISTER_COUNT: usize = 10;

/// Number of operation codes.
pub const NOPS: usize = 16;

/// Number of trap services.
pub const NTRAPS: usize = 8;

/// Trap vector of the first trap service.
pub const TRAP_OFFSET: u16 = 0x20;

/// The named slots of the register file: eight general registers, the
/// program counter and the condition flags.
#[derive(Clone, Copy, PartialEq, Eq, Structural, Debug)]
pub enum Register {
    R0,
    R1,
    R2,
    R3,
    R4,
    R5,
    R6,
    R7,
    RPC,
    RCND,
}

impl Register {
    /// The slot of this register. The general registers take slots 0 to 7,
    /// so that a 3-bit operand field is the slot of the register it names.
    pub open spec fn spec_index(self) -> u16 {
        match self {
            Register::R0 => 0,
            Register::R1 => 1,
            Register::R2 => 2,
            Register::R3 => 3,
            Register::R4 => 4,
            Register::R5 => 5,
            Register::R6 => 6,
            Register::R7 => 7,
            Register::RPC => 8,
            Register::RCND => 9,
        }
    }

    /// The slot of this register in the register file.
    #[verifier::when_used_as_spec(spec_index)]
    pub fn index(self) -> (r: u16)
        ensures
            r == self.spec_index(),
            r < REGISTER_COUNT,
    {
        match self {
            Register::R0 => 0,
            Register::R1 => 1,
            Register::R2 => 2,
            Register::R3 => 3,
            Register::R4 => 4,
            Register::R5 => 5,
            Register::R6 => 6,
            Register::R7 => 7,
            Register::RPC => 8,
            Register::RCND => 9,
        }
    }
}

/// The three condition flags. The flags register holds the bit of exactly
/// one of them once an instruction has set it.
#[derive(Clone, Copy, PartialEq, Eq, Structural, Debug)]
pub enum Flag {
    /// Positive.
    FP,
    /// Zero.
    FZ,
    /// Negative.
    FN,
}

impl Flag {
    /// The one-hot word of this flag: 1 for positive, 2 for zero, 4 for
    /// negative.
    pub open spec fn spec_bits(self) -> u16 {
        match self {
            Flag::FP => 1,
            Flag::FZ => 2,
            Flag::FN => 4,
        }
    }

    /// The flag that classifies `value` read as a signed 16-bit number.
    pub open spec fn spec_of(value: u16) -> Flag {
        if value == 0 {
            Flag::FZ
        } else if value >= 0x8000 {
            Flag::FN
        } else {
            Flag::FP
        }
    }

    /// The one-hot word of this flag.
    #[verifier::when_used_as_spec(spec_bits)]
    pub fn bits(self) -> (r: u16)
        ensures
            r == self.spec_bits(),
    {
        match self {
            Flag::FP => 1,
            Flag::FZ => 2,
            Flag::FN => 4,
        }
    }

    /// Classifies `value`: zero, negative where bit 15 is set, positive
    /// otherwise.
    #[verifier::when_used_as_spec(spec_of)]
    pub fn of(value: u16) -> (r: Flag)
        ensures
            r == Flag::spec_of(value),
    {
        if value == 0 {
            Flag::FZ
        } else if (value >> 15) == 1 {
            assert(value >> 15 == 1 <==> value >= 0x8000) by (bit_vector);
            Flag::FN
        } else {
            assert(value >> 15 == 1 <==> value >= 0x8000) by (bit_vector);
            Flag::FP
        }
    }
}

} // verus!
