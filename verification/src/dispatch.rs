//! The two dispatch tables: sixteen operations selected by the operation
//! code, and eight trap services selected by the trap vector.

use crate::decode::{opc, spec_opc};
use crate::registers::{NOPS, NTRAPS, TRAP_OFFSET};
use vstd::prelude::*;

verus! {

/// The sixteen operations, in the order of their operation codes.
#[derive(Clone, Copy, PartialEq, Eq, Structural, Debug)]
pub enum Opcode {
    /// Conditional branch.
    Br,
    /// Addition.
    Add,
    /// Load, relative to the program counter.
    Ld,
    /// Store, relative to the program counter.
    St,
    /// Jump to a subroutine.
    Jsr,
    /// Bitwise and.
    And,
    /// Load, relative to a register.
    Ldr,
    /// Store, relative to a register.
    Str,
    /// Return from an interrupt: does nothing.
    Rti,
    /// Bitwise complement.
    Not,
    /// Load through a pointer in memory.
    Ldi,
    /// Store through a pointer in memory.
    Sti,
    /// Jump.
    Jmp,
    /// Reserved: does nothing.
    Res,
    /// Load an effective address.
    Lea,
    /// Call a trap service.
    Trap,
}

impl Opcode {
    /// The entry of the operation table at `code`; every code from 0 to 15
    /// has one.
    pub open spec fn spec_at(code: u16) -> Opcode {
        if code == 0 {
            Opcode::Br
        } else if code == 1 {
            Opcode::Add
        } else if code == 2 {
            Opcode::Ld
        } else if code == 3 {
            Opcode::St
        } else if code == 4 {
            Opcode::Jsr
        } else if code == 5 {
            Opcode::And
        } else if code == 6 {
            Opcode::Ldr
        } else if code == 7 {
            Opcode::Str
        } else if code == 8 {
            Opcode::Rti
        } else if code == 9 {
            Opcode::Not
        } else if code == 10 {
            Opcode::Ldi
        } else if code == 11 {
            Opcode::Sti
        } else if code == 12 {
            Opcode::Jmp
        } else if code == 13 {
            Opcode::Res
        } else if code == 14 {
            Opcode::Lea
        } else {
            Opcode::Trap
        }
    }

    /// The operation that the instruction word `i` selects.
    pub open spec fn spec_of(i: u16) -> Opcode {
        Opcode::spec_at(spec_opc(i))
    }

    /// The position of this operation in the table.
    pub open spec fn spec_code(self) -> u16 {
        match self {
            Opcode::Br => 0,
            Opcode::Add => 1,
            Opcode::Ld => 2,
            Opcode::St => 3,
            Opcode::Jsr => 4,
            Opcode::And => 5,
            Opcode::Ldr => 6,
            Opcode::Str => 7,
            Opcode::Rti => 8,
            Opcode::Not => 9,
            Opcode::Ldi => 10,
            Opcode::Sti => 11,
            Opcode::Jmp => 12,
            Opcode::Res => 13,
            Opcode::Lea => 14,
            Opcode::Trap => 15,
        }
    }

    /// The operation that the instruction word `i` selects. The table has an
    /// entry for each of the sixteen codes, so this never fails.
    #[verifier::when_used_as_spec(spec_of)]
    pub fn of(i: u16) -> (r: Opcode)
        ensures
            r == Opcode::spec_of(i),
            r.spec_code() == spec_opc(i),
            r.spec_code() < NOPS,
    {
        match opc(i) {
            0 => Opcode::Br,
            1 => Opcode::Add,
            2 => Opcode::Ld,
            3 => Opcode::St,
            4 => Opcode::Jsr,
            5 => Opcode::And,
            6 => Opcode::Ldr,
            7 => Opcode::Str,
            8 => Opcode::Rti,
            9 => Opcode::Not,
            10 => Opcode::Ldi,
            11 => Opcode::Sti,
            12 => Opcode::Jmp,
            13 => Opcode::Res,
            14 => Opcode::Lea,
            _ => Opcode::Trap,
        }
    }
}

/// The eight trap services, in the order of their trap vectors.
#[derive(Clone, Copy, PartialEq, Eq, Structural, Debug)]
pub enum Trap {
    /// Read one character, without echo.
    Getc,
    /// Write one character.
    Out,
    /// Write a string of one character per word.
    Puts,
    /// Read one character and echo it.
    In,
    /// Write a string of two characters per word: does nothing.
    Putsp,
    /// Stop the machine.
    Halt,
    /// Read a line as a decimal number.
    Inu16,
    /// Write a decimal number and a line end.
    Outu16,
}

impl Trap {
    /// The entry of the trap table for `vector`: one for each vector from
    /// `TRAP_OFFSET` to `TRAP_OFFSET + 7`, none for any other.
    pub open spec fn spec_of(vector: u16) -> Option<Trap> {
        if vector == TRAP_OFFSET {
            Some(Trap::Getc)
        } else if vector == TRAP_OFFSET + 1 {
            Some(Trap::Out)
        } else if vector == TRAP_OFFSET + 2 {
            Some(Trap::Puts)
        } else if vector == TRAP_OFFSET + 3 {
            Some(Trap::In)
        } else if vector == TRAP_OFFSET + 4 {
            Some(Trap::Putsp)
        } else if vector == TRAP_OFFSET + 5 {
            Some(Trap::Halt)
        } else if vector == TRAP_OFFSET + 6 {
            Some(Trap::Inu16)
        } else if vector == TRAP_OFFSET + 7 {
            Some(Trap::Outu16)
        } else {
            None
        }
    }

    /// The trap vector of this service.
    pub open spec fn spec_vector(self) -> u16 {
        match self {
            Trap::Getc => 0x20,
            Trap::Out => 0x21,
            Trap::Puts => 0x22,
            Trap::In => 0x23,
            Trap::Putsp => 0x24,
            Trap::Halt => 0x25,
            Trap::Inu16 => 0x26,
            Trap::Outu16 => 0x27,
        }
    }

    /// The trap service at `vector`, or `None` where the vector lies outside
    /// the table.
    #[verifier::when_used_as_spec(spec_of)]
    pub fn of(vector: u16) -> (r: Option<Trap>)
        ensures
            r == Trap::spec_of(vector),
            r is Some <==> TRAP_OFFSET <= vector < TRAP_OFFSET + NTRAPS,
    {
        if vector < TRAP_OFFSET {
            return None;
        }
        match vector - TRAP_OFFSET {
            0 => Some(Trap::Getc),
            1 => Some(Trap::Out),
            2 => Some(Trap::Puts),
            3 => Some(Trap::In),
            4 => Some(Trap::Putsp),
            5 => Some(Trap::Halt),
            6 => Some(Trap::Inu16),
            7 => Some(Trap::Outu16),
            _ => None,
        }
    }
}

/// The operation table is total and has no entry twice: each of the sixteen
/// codes selects the operation that stands at that code, and each operation
/// stands at one code below sixteen.
pub proof fn lemma_operation_table_is_total(code: u16, op: Opcode)
    ensures
        code < NOPS ==> Opcode::spec_at(code).spec_code() == code,
        op.spec_code() < NOPS,
        Opcode::spec_at(op.spec_code()) == op,
{
}

/// The trap table holds exactly the eight services, at the vectors from
/// `TRAP_OFFSET` on: a vector selects a service exactly where it lies in
/// that range, and it is then the vector of that service.
pub proof fn lemma_trap_table_is_exact(vector: u16, t: Trap)
    ensures
        Trap::spec_of(vector) is Some <==> TRAP_OFFSET <= vector < TRAP_OFFSET + NTRAPS,
        Trap::spec_of(vector) matches Some(found) ==> found.spec_vector() == vector,
        Trap::spec_of(t.spec_vector()) == Some(t),
{
}

} // verus!
