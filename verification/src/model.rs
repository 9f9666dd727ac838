//! The machine as a mathematical value, and what each instruction, each trap
//! service and the execution loop do to it.
//!
//! Everything here is ghost code: the contracts of the executable machine
//! are stated over these functions.

use crate::decode::{dr, fcnd, fimm, fl, poff, poff11, poff9, sextimm, sr1, sr2, trp};
use crate::dispatch::{Opcode, Trap};
use crate::registers::{Flag, Register, MEMORY_SIZE, REGISTER_COUNT};
use crate::text::{decimal, spec_parse_u16};
use vstd::prelude::*;

verus! {

/// `x` reduced modulo `2^16`: the word that 16-bit arithmetic gives for the
/// number `x`.
pub open spec fn wrap(x: int) -> u16 {
    (x % 0x10000) as u16
}

/// The low eight bits of `w`: the code of the character that a word holds.
pub open spec fn low_byte(w: u16) -> u8 {
    (w % 0x100) as u8
}

/// The word at distance `k` from the start of a loaded image, given the word
/// `before` that memory held there. Two bytes make a word, the low byte
/// first. A last byte without a partner replaces the low byte only.
pub open spec fn loaded_word(before: u16, image: Seq<u8>, k: int) -> u16 {
    if k < 0 || 2 * k >= image.len() {
        before
    } else if 2 * k + 1 < image.len() {
        (image[2 * k] + 0x100 * image[2 * k + 1]) as u16
    } else {
        (image[2 * k] + 0x100 * (before / 0x100)) as u16
    }
}

/// What a step asks of the console.
pub enum Effect {
    /// Nothing.
    Continue,
    /// Write the characters with these codes, then flush.
    Write(Seq<u8>),
    /// Read one character; it is not echoed.
    ReadChar,
    /// Read one character and echo it.
    ReadCharEcho,
    /// Read one line.
    ReadLine,
    /// The instruction was a trap whose vector has no entry in the trap
    /// table.
    UnknownTrap(u16),
}

/// The state of the machine.
pub struct Machine {
    /// The address at which programs are loaded and started.
    pub origin: u16,
    /// Whether the machine has not been halted.
    pub running: bool,
    /// The words of memory, by address.
    pub memory: Seq<u16>,
    /// The register file, by slot.
    pub registers: Seq<u16>,
}

impl Machine {
    /// Memory covers the whole address space and the register file has all
    /// its slots.
    pub open spec fn wf(self) -> bool {
        &&& self.memory.len() == MEMORY_SIZE
        &&& self.registers.len() == REGISTER_COUNT
    }

    /// The machine as it is created: every register and every word of
    /// memory zero, running, with its origin at `0x3000`.
    pub open spec fn initial() -> Machine {
        Machine {
            origin: 0x3000,
            running: true,
            memory: Seq::new(MEMORY_SIZE as nat, |a: int| 0u16),
            registers: Seq::new(REGISTER_COUNT as nat, |r: int| 0u16),
        }
    }

    /// The register in `slot`.
    pub open spec fn reg(self, slot: u16) -> u16 {
        self.registers[slot as int]
    }

    /// The program counter.
    pub open spec fn pc(self) -> u16 {
        self.reg(Register::RPC.index())
    }

    /// The flags register.
    pub open spec fn cond(self) -> u16 {
        self.reg(Register::RCND.index())
    }

    /// The word of memory at `address`.
    pub open spec fn mem(self, address: u16) -> u16 {
        self.memory[address as int]
    }

    /// This machine with `value` in the register in `slot`.
    pub open spec fn set_reg(self, slot: u16, value: u16) -> Machine {
        Machine { registers: self.registers.update(slot as int, value), ..self }
    }

    /// This machine with `value` in memory at `address`.
    pub open spec fn set_mem(self, address: u16, value: u16) -> Machine {
        Machine { memory: self.memory.update(address as int, value), ..self }
    }

    /// This machine with the flags register set to the one flag that
    /// classifies the register in `slot`.
    pub open spec fn uf(self, slot: u16) -> Machine {
        self.set_reg(Register::RCND.index(), Flag::of(self.reg(slot)).bits())
    }

    /// The second operand of an addition or a conjunction: the sign-extended
    /// immediate where the instruction has one, else the second source
    /// register.
    pub open spec fn operand(self, i: u16) -> u16 {
        if fimm(i) == 1 {
            sextimm(i)
        } else {
            self.reg(sr2(i))
        }
    }

    /// The address at `offset` from the program counter.
    pub open spec fn pc_relative(self, offset: u16) -> u16 {
        wrap(self.pc() + offset)
    }

    /// The address at the 6-bit offset of `i` from its base register.
    pub open spec fn base_relative(self, i: u16) -> u16 {
        wrap(self.reg(sr1(i)) + poff(i))
    }

    /// ADD: the destination gets the sum of the first source and the
    /// operand, modulo `2^16`; flags follow.
    pub open spec fn add(self, i: u16) -> Machine {
        self.set_reg(dr(i), wrap(self.reg(sr1(i)) + self.operand(i))).uf(dr(i))
    }

    /// AND: the destination gets the bitwise conjunction of the first source
    /// and the operand; flags follow.
    pub open spec fn and(self, i: u16) -> Machine {
        self.set_reg(dr(i), self.reg(sr1(i)) & self.operand(i)).uf(dr(i))
    }

    /// NOT: the destination gets the complement of the source, which is
    /// `0xFFFF` minus it; flags follow.
    pub open spec fn not(self, i: u16) -> Machine {
        self.set_reg(dr(i), (0xFFFF - self.reg(sr1(i))) as u16).uf(dr(i))
    }

    /// LD: the destination gets the word at the 9-bit offset from the
    /// program counter; flags follow.
    pub open spec fn ld(self, i: u16) -> Machine {
        self.set_reg(dr(i), self.mem(self.pc_relative(poff9(i)))).uf(dr(i))
    }

    /// LDI: the destination gets the word whose address is the word at the
    /// 9-bit offset from the program counter; flags follow.
    pub open spec fn ldi(self, i: u16) -> Machine {
        self.set_reg(dr(i), self.mem(self.mem(self.pc_relative(poff9(i))))).uf(dr(i))
    }

    /// LDR: the destination gets the word at the 6-bit offset from the base
    /// register; flags follow.
    pub open spec fn ldr(self, i: u16) -> Machine {
        self.set_reg(dr(i), self.mem(self.base_relative(i))).uf(dr(i))
    }

    /// LEA: the destination gets the address at the 9-bit offset from the
    /// program counter; flags follow.
    pub open spec fn lea(self, i: u16) -> Machine {
        self.set_reg(dr(i), self.pc_relative(poff9(i))).uf(dr(i))
    }

    /// ST: the word at the 9-bit offset from the program counter gets the
    /// register that the destination field names.
    pub open spec fn st(self, i: u16) -> Machine {
        self.set_mem(self.pc_relative(poff9(i)), self.reg(dr(i)))
    }

    /// STI: the word whose address is the word at the 9-bit offset from the
    /// program counter gets the register that the destination field names.
    pub open spec fn sti(self, i: u16) -> Machine {
        self.set_mem(self.mem(self.pc_relative(poff9(i))), self.reg(dr(i)))
    }

    /// STR: the word at the 6-bit offset from the base register gets the
    /// register that the destination field names.
    pub open spec fn str(self, i: u16) -> Machine {
        self.set_mem(self.base_relative(i), self.reg(dr(i)))
    }

    /// JMP: the program counter gets the source register.
    pub open spec fn jmp(self, i: u16) -> Machine {
        self.set_reg(Register::RPC.index(), self.reg(sr1(i)))
    }

    /// JSR: `R7` gets the program counter; then the program counter gets the
    /// address at the 11-bit offset from it in the long form, else the
    /// source register, read after `R7` was written.
    pub open spec fn jsr(self, i: u16) -> Machine {
        let linked = self.set_reg(Register::R7.index(), self.pc());
        let target = if fl(i) == 1 {
            self.pc_relative(poff11(i))
        } else {
            linked.reg(sr1(i))
        };
        linked.set_reg(Register::RPC.index(), target)
    }

    /// RTI: nothing changes.
    pub open spec fn rti(self, i: u16) -> Machine {
        self
    }

    /// RES: nothing changes.
    pub open spec fn res(self, i: u16) -> Machine {
        self
    }

    /// Whether the branch `i` is taken: the flags register and the
    /// condition mask have a set bit in common.
    pub open spec fn branches(self, i: u16) -> bool {
        self.cond() & fcnd(i) != 0
    }

    /// BR: where the branch is taken, the program counter moves by the 9-bit
    /// offset; else nothing changes.
    pub open spec fn br(self, i: u16) -> Machine {
        if self.branches(i) {
            self.set_reg(Register::RPC.index(), self.pc_relative(poff9(i)))
        } else {
            self
        }
    }

    /// The word at distance `k` from `address`, wrapping at the end of
    /// memory.
    pub open spec fn word_from(self, address: u16, k: int) -> u16 {
        self.mem(wrap(address + k))
    }

    /// How many words from `address` on, wrapping at the end of memory, are
    /// not zero, counting at most `limit` of them.
    pub open spec fn text_len(self, address: u16, limit: nat) -> nat
        decreases limit,
    {
        if limit == 0 || self.mem(address) == 0 {
            0
        } else {
            1 + self.text_len(wrap(address + 1), (limit - 1) as nat)
        }
    }

    /// The string at `address`: the character codes in the low bytes of the
    /// words from `address` up to the first zero word, wrapping at the end
    /// of memory. Where no word of memory is zero, it is all of memory once.
    pub open spec fn text_at(self, address: u16) -> Seq<u8> {
        Seq::new(
            self.text_len(address, MEMORY_SIZE as nat),
            |k: int| low_byte(self.word_from(address, k)),
        )
    }

    /// GETC and IN once a character was read, or reading failed: `R0` gets
    /// the character's code, or stays as it is.
    pub open spec fn tgetc(self, input: Option<u8>) -> Machine {
        match input {
            Some(code) => self.set_reg(Register::R0.index(), code as u16),
            None => self,
        }
    }

    /// OUT: the character to write, the low byte of `R0`.
    pub open spec fn tout(self) -> u8 {
        low_byte(self.reg(Register::R0.index()))
    }

    /// PUTS: the characters to write, the string at the address in `R0`.
    pub open spec fn tputs(self) -> Seq<u8> {
        self.text_at(self.reg(Register::R0.index()))
    }

    /// HALT: the machine stops running.
    pub open spec fn thalt(self) -> Machine {
        Machine { running: false, ..self }
    }

    /// INU16 once a line was read, or reading failed: `R0` gets the number
    /// that the line writes, or stays as it is where it writes none.
    pub open spec fn tinu16(self, line: Option<Seq<char>>) -> Machine {
        match line {
            Some(s) => match spec_parse_u16(s) {
                Some(value) => self.set_reg(Register::R0.index(), value),
                None => self,
            },
            None => self,
        }
    }

    /// OUTU16: the characters to write, `R0` in decimal and a line feed.
    pub open spec fn toutu16(self) -> Seq<u8> {
        decimal(self.reg(Register::R0.index()) as nat).push(10u8)
    }

    /// What the trap service `t` does at once, and what it asks of the
    /// console. A service that reads leaves the machine as it is: its
    /// answer comes in through `tgetc` or `tinu16`.
    pub open spec fn service(self, t: Trap) -> (Machine, Effect) {
        match t {
            Trap::Getc => (self, Effect::ReadChar),
            Trap::Out => (self, Effect::Write(seq![self.tout()])),
            Trap::Puts => (self, Effect::Write(self.tputs())),
            Trap::In => (self, Effect::ReadCharEcho),
            Trap::Putsp => (self, Effect::Continue),
            Trap::Halt => (self.thalt(), Effect::Continue),
            Trap::Inu16 => (self, Effect::ReadLine),
            Trap::Outu16 => (self, Effect::Write(self.toutu16())),
        }
    }

    /// TRAP: the service that the trap vector selects. A vector outside the
    /// trap table changes nothing and is reported.
    pub open spec fn trap(self, i: u16) -> (Machine, Effect) {
        match Trap::of(trp(i)) {
            Some(t) => self.service(t),
            None => (self, Effect::UnknownTrap(trp(i))),
        }
    }

    /// The instruction `i`, by the operation that its code selects.
    pub open spec fn execute(self, i: u16) -> (Machine, Effect) {
        match Opcode::of(i) {
            Opcode::Br => (self.br(i), Effect::Continue),
            Opcode::Add => (self.add(i), Effect::Continue),
            Opcode::Ld => (self.ld(i), Effect::Continue),
            Opcode::St => (self.st(i), Effect::Continue),
            Opcode::Jsr => (self.jsr(i), Effect::Continue),
            Opcode::And => (self.and(i), Effect::Continue),
            Opcode::Ldr => (self.ldr(i), Effect::Continue),
            Opcode::Str => (self.str(i), Effect::Continue),
            Opcode::Rti => (self.rti(i), Effect::Continue),
            Opcode::Not => (self.not(i), Effect::Continue),
            Opcode::Ldi => (self.ldi(i), Effect::Continue),
            Opcode::Sti => (self.sti(i), Effect::Continue),
            Opcode::Jmp => (self.jmp(i), Effect::Continue),
            Opcode::Res => (self.res(i), Effect::Continue),
            Opcode::Lea => (self.lea(i), Effect::Continue),
            Opcode::Trap => self.trap(i),
        }
    }

    /// The word that the next step executes: the one at the program counter.
    pub open spec fn fetch(self) -> u16 {
        self.mem(self.pc())
    }

    /// This machine with the program counter moved to the next word.
    pub open spec fn advance(self) -> Machine {
        self.set_reg(Register::RPC.index(), wrap(self.pc() + 1))
    }

    /// One step: fetch the word at the program counter, advance the program
    /// counter, then execute the word.
    pub open spec fn step(self) -> (Machine, Effect) {
        self.advance().execute(self.fetch())
    }

    /// The execution loop: steps follow one another while the machine runs,
    /// until a step asks something of the console or `budget` steps were
    /// taken.
    pub open spec fn run(self, budget: nat) -> (Machine, Effect)
        decreases budget,
    {
        if !self.running || budget == 0 {
            (self, Effect::Continue)
        } else {
            let (next, effect) = self.step();
            if effect is Continue {
                next.run((budget - 1) as nat)
            } else {
                (next, effect)
            }
        }
    }

    /// This machine with the program counter at `offset` from the origin.
    pub open spec fn start(self, offset: u16) -> Machine {
        self.set_reg(Register::RPC.index(), wrap(self.origin + offset))
    }

    /// This machine with the bytes of `image` laid over memory from
    /// `offset` past the origin on. What does not fit below the end of
    /// memory is left out.
    pub open spec fn load(self, image: Seq<u8>, offset: u16) -> Machine {
        let first = self.origin + offset;
        Machine {
            memory: Seq::new(
                MEMORY_SIZE as nat,
                |a: int| loaded_word(self.memory[a], image, a - first),
            ),
            ..self
        }
    }
}

} // verus!
