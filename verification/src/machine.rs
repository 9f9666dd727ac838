//! The executable machine.

use crate::decode::{dr, fcnd, fimm, fl, poff, poff11, poff9, sextimm, sr1, sr2, trp};
use crate::dispatch::{Opcode, Trap};
use crate::model::{loaded_word, low_byte, wrap, Effect, Machine};
use crate::text::{parse_u16, to_decimal};
use crate::registers::{Flag, Register, MEMORY_SIZE, REGISTER_COUNT};
use vstd::prelude::*;

verus! {

/// What a step asks of the console.
#[derive(PartialEq, Eq, Debug)]
pub enum Event {
    /// Nothing.
    Continue,
    /// Write the characters with these codes, then flush.
    Write(Vec<u8>),
    /// Read one character and hand it to `tgetc`.
    ReadChar,
    /// Read one character, hand it to `tin` and write what `tin` returns.
    ReadCharEcho,
    /// Read one line and hand it to `tinu16`.
    ReadLine,
    /// The instruction was a trap whose vector has no entry in the trap
    /// table.
    UnknownTrap(u16),
}

impl View for Event {
    type V = Effect;

    open spec fn view(&self) -> Effect {
        match self {
            Event::Continue => Effect::Continue,
            Event::Write(text) => Effect::Write(text@),
            Event::ReadChar => Effect::ReadChar,
            Event::ReadCharEcho => Effect::ReadCharEcho,
            Event::ReadLine => Effect::ReadLine,
            Event::UnknownTrap(vector) => Effect::UnknownTrap(*vector),
        }
    }
}

/// The machine: the register file, all of memory, the running flag and the
/// address at which programs are loaded and started.
pub struct VirtualMachine {
    pc: u16,
    running: bool,
    memory: [u16; MEMORY_SIZE],
    registers: [u16; REGISTER_COUNT],
}

impl View for VirtualMachine {
    type V = Machine;

    closed spec fn view(&self) -> Machine {
        Machine {
            origin: self.pc,
            running: self.running,
            memory: self.memory@,
            registers: self.registers@,
        }
    }
}

impl VirtualMachine {
    /// A machine with every register and every word of memory zero, running,
    /// with its origin at `0x3000`.
    pub fn new() -> (vm: Self)
        ensures
            vm@ == Machine::initial(),
            vm@.wf(),
    {
        let vm = VirtualMachine {
            pc: 0x3000,
            running: true,
            memory: [0; MEMORY_SIZE],
            registers: [0; REGISTER_COUNT],
        };
        assert(vm@.memory =~= Machine::initial().memory);
        assert(vm@.registers =~= Machine::initial().registers);
        vm
    }

    /// Lays the bytes of `image` over memory, from `offset` past the origin
    /// on: two bytes make a word, the low byte first, and a last byte
    /// without a partner replaces the low byte of its word. What does not
    /// fit below the end of memory is left out.
    pub fn load(&mut self, image: &[u8], offset: u16)
        requires
            old(self)@.origin + offset <= 0xFFFF,
        ensures
            final(self)@ == old(self)@.load(image@, offset),
            final(self)@.wf(),
    {
        let start: usize = (self.pc + offset) as usize;
        let n: usize = image.len();
        let mut k: usize = 0;
        while start + k < MEMORY_SIZE && k < n - k
            invariant
                start == old(self)@.origin + offset,
                n == image@.len(),
                k <= MEMORY_SIZE - start,
                2 * k <= n + 1,
                self.pc == old(self).pc,
                self.running == old(self).running,
                self.registers == old(self).registers,
                forall|a: int|
                    0 <= a < MEMORY_SIZE ==> #[trigger] self.memory@[a] == if a < start + k {
                        loaded_word(old(self).memory@[a], image@, a - start)
                    } else {
                        old(self).memory@[a]
                    },
            decreases MEMORY_SIZE - start - k,
        {
            let low: u16 = image[2 * k] as u16;
            let high: u16 = if 2 * k + 1 < n {
                image[2 * k + 1] as u16
            } else {
                self.memory[start + k] / 0x100
            };
            self.memory[start + k] = low + 0x100 * high;
            k += 1;
        }
        assert(self@.memory =~= old(self)@.load(image@, offset).memory);
    }

    /// ADD: the destination gets the sum of the first source and the
    /// operand, wrapping at `2^16`, and the flags follow.
    pub fn add(&mut self, i: u16)
        ensures
            final(self)@ == old(self)@.add(i),
            final(self)@.wf(),
    {
        let val: u16 = match fimm(i) {
            1 => sextimm(i),
            _ => self.registers[sr2(i) as usize],
        };
        self.registers[dr(i) as usize] = self.registers[sr1(i) as usize].wrapping_add(val);
        self.uf(dr(i));
    }

    /// AND: the destination gets the bitwise conjunction of the first source
    /// and the operand, and the flags follow.
    pub fn and(&mut self, i: u16)
        ensures
            final(self)@ == old(self)@.and(i),
            final(self)@.wf(),
    {
        let val: u16 = match fimm(i) {
            1 => sextimm(i),
            _ => self.registers[sr2(i) as usize],
        };
        self.registers[dr(i) as usize] = self.registers[sr1(i) as usize] & val;
        self.uf(dr(i));
    }

    /// NOT: the destination gets the complement of the source, and the
    /// flags follow.
    pub fn not(&mut self, i: u16)
        ensures
            final(self)@ == old(self)@.not(i),
            final(self)@.wf(),
    {
        let source: u16 = self.registers[sr1(i) as usize];
        assert(!source == 0xFFFF - source) by (bit_vector);
        self.registers[dr(i) as usize] = !source;
        self.uf(dr(i));
    }

    /// LD: the destination gets the word at the 9-bit offset from the
    /// program counter, and the flags follow.
    pub fn ld(&mut self, i: u16)
        ensures
            final(self)@ == old(self)@.ld(i),
            final(self)@.wf(),
    {
        let address: u16 = self.registers[Register::RPC.index() as usize].wrapping_add(poff9(i));
        self.registers[dr(i) as usize] = self.memread(address);
        self.uf(dr(i));
    }

    /// LDI: the destination gets the word whose address is the word at the
    /// 9-bit offset from the program counter, and the flags follow.
    pub fn ldi(&mut self, i: u16)
        ensures
            final(self)@ == old(self)@.ldi(i),
            final(self)@.wf(),
    {
        let pointer: u16 = self.registers[Register::RPC.index() as usize].wrapping_add(poff9(i));
        self.registers[dr(i) as usize] = self.memread(self.memread(pointer));
        self.uf(dr(i));
    }

    /// LDR: the destination gets the word at the 6-bit offset from the base
    /// register, and the flags follow.
    pub fn ldr(&mut self, i: u16)
        ensures
            final(self)@ == old(self)@.ldr(i),
            final(self)@.wf(),
    {
        let address: u16 = self.registers[sr1(i) as usize].wrapping_add(poff(i));
        self.registers[dr(i) as usize] = self.memread(address);
        self.uf(dr(i));
    }

    /// LEA: the destination gets the address at the 9-bit offset from the
    /// program counter, and the flags follow.
    pub fn lea(&mut self, i: u16)
        ensures
            final(self)@ == old(self)@.lea(i),
            final(self)@.wf(),
    {
        self.registers[dr(i) as usize] =
            self.registers[Register::RPC.index() as usize].wrapping_add(poff9(i));
        self.uf(dr(i));
    }

    /// ST: the word at the 9-bit offset from the program counter gets the
    /// register that the destination field names.
    pub fn st(&mut self, i: u16)
        ensures
            final(self)@ == old(self)@.st(i),
            final(self)@.wf(),
    {
        self.memwrite(
            self.registers[Register::RPC.index() as usize].wrapping_add(poff9(i)),
            self.registers[dr(i) as usize],
        );
    }

    /// STI: the word whose address is the word at the 9-bit offset from the
    /// program counter gets the register that the destination field names.
    pub fn sti(&mut self, i: u16)
        ensures
            final(self)@ == old(self)@.sti(i),
            final(self)@.wf(),
    {
        self.memwrite(
            self.memread(self.registers[Register::RPC.index() as usize].wrapping_add(poff9(i))),
            self.registers[dr(i) as usize],
        );
    }

    /// STR: the word at the 6-bit offset from the base register gets the
    /// register that the destination field names.
    pub fn str(&mut self, i: u16)
        ensures
            final(self)@ == old(self)@.str(i),
            final(self)@.wf(),
    {
        self.memwrite(
            self.registers[sr1(i) as usize].wrapping_add(poff(i)),
            self.registers[dr(i) as usize],
        );
    }

    /// JMP: the program counter gets the source register.
    pub fn jmp(&mut self, i: u16)
        ensures
            final(self)@ == old(self)@.jmp(i),
            final(self)@.wf(),
    {
        self.registers[Register::RPC.index() as usize] = self.registers[sr1(i) as usize];
    }

    /// JSR: `R7` gets the program counter; then the program counter gets
    /// the address at the 11-bit offset from it in the long form, else the
    /// source register.
    pub fn jsr(&mut self, i: u16)
        ensures
            final(self)@ == old(self)@.jsr(i),
            final(self)@.wf(),
    {
        self.registers[Register::R7.index() as usize] =
            self.registers[Register::RPC.index() as usize];
        let val: u16 = match fl(i) {
            1 => self.registers[Register::RPC.index() as usize].wrapping_add(poff11(i)),
            _ => self.registers[sr1(i) as usize],
        };
        self.registers[Register::RPC.index() as usize] = val;
        assert(self@.registers =~= old(self)@.jsr(i).registers);
    }

    /// RTI: does nothing.
    pub fn rti(&mut self, _i: u16)
        ensures
            final(self)@ == old(self)@.rti(_i),
            final(self)@.wf(),
    {
    }

    /// RES: does nothing.
    pub fn res(&mut self, _i: u16)
        ensures
            final(self)@ == old(self)@.res(_i),
            final(self)@.wf(),
    {
    }

    /// BR: where the flags register and the condition mask have a set bit
    /// in common, whichever flag it is, the program counter moves by the
    /// 9-bit offset.
    pub fn br(&mut self, i: u16)
        ensures
            final(self)@ == old(self)@.br(i),
            final(self)@.wf(),
    {
        if self.registers[Register::RCND.index() as usize] & fcnd(i) != 0 {
            self.registers[Register::RPC.index() as usize] =
                self.registers[Register::RPC.index() as usize].wrapping_add(poff9(i));
        }
    }

    /// GETC, once the console has read a character or failed to: `R0` gets
    /// the character's code, or stays as it is.
    pub fn tgetc(&mut self, input: Option<u8>)
        ensures
            final(self)@ == old(self)@.tgetc(input),
            final(self)@.wf(),
    {
        if let Some(code) = input {
            self.registers[Register::R0.index() as usize] = code as u16;
        }
    }

    /// OUT: the code of the character to write, the low byte of `R0`.
    pub fn tout(&self) -> (code: u8)
        ensures
            code == self@.tout(),
    {
        (self.registers[Register::R0.index() as usize] % 0x100) as u8
    }

    /// PUTS: the codes of the characters to write, one from the low byte of
    /// each word from the address in `R0` up to the first zero word,
    /// wrapping at the end of memory. Where no word of memory is zero the
    /// result is all of memory once, `MEMORY_SIZE` characters, which no
    /// string that ends can have.
    pub fn tputs(&self) -> (text: Vec<u8>)
        ensures
            text@ == self@.tputs(),
    {
        let start: u16 = self.registers[Register::R0.index() as usize];
        let mut address: u16 = start;
        let mut text: Vec<u8> = Vec::new();
        let mut count: usize = 0;
        while count < MEMORY_SIZE && self.memory[address as usize] != 0
            invariant
                count <= MEMORY_SIZE,
                address == wrap(start + count),
                text@.len() == count,
                forall|k: int|
                    0 <= k < count ==> #[trigger] text@[k] == low_byte(self@.word_from(start, k)),
                self@.text_len(start, MEMORY_SIZE as nat) == count + self@.text_len(
                    address,
                    (MEMORY_SIZE - count) as nat,
                ),
            decreases MEMORY_SIZE - count,
        {
            text.push((self.memory[address as usize] % 0x100) as u8);
            address = address.wrapping_add(1);
            count += 1;
        }
        assert(text@ =~= self@.tputs());
        text
    }

    /// IN, once the console has read a character or failed to: `R0` gets
    /// the character's code, or stays as it is. The result is the character
    /// to echo, if one was read.
    pub fn tin(&mut self, input: Option<u8>) -> (echo: Option<u8>)
        ensures
            final(self)@ == old(self)@.tgetc(input),
            final(self)@.wf(),
            echo == input,
    {
        if let Some(code) = input {
            self.registers[Register::R0.index() as usize] = code as u16;
        }
        input
    }

    /// PUTSP: does nothing; strings of two characters per word are not
    /// written.
    pub fn tputsp(&mut self)
        ensures
            final(self)@ == old(self)@,
            final(self)@.wf(),
    {
    }

    /// HALT: the machine stops running.
    pub fn thalt(&mut self)
        ensures
            final(self)@ == old(self)@.thalt(),
            final(self)@.wf(),
    {
        self.running = false;
    }

    /// INU16, once the console has read a line or failed to: `R0` gets the
    /// number that the line writes in decimal, or stays as it is where the
    /// line writes none.
    pub fn tinu16(&mut self, line: Option<&str>)
        ensures
            final(self)@ == old(self)@.tinu16(
                match line {
                    Some(s) => Some(s@),
                    None => None,
                },
            ),
            final(self)@.wf(),
    {
        if let Some(input) = line {
            if let Some(val) = parse_u16(input) {
                self.registers[Register::R0.index() as usize] = val;
            }
        }
    }

    /// OUTU16: the codes of the characters to write, `R0` in decimal and a
    /// line feed.
    pub fn toutu16(&self) -> (text: Vec<u8>)
        ensures
            text@ == self@.toutu16(),
    {
        let mut text = to_decimal(self.registers[Register::R0.index() as usize]);
        text.push(10);
        text
    }

    /// TRAP: runs the service that the trap vector of `i` selects, as far
    /// as it goes without the console, and says what the console is to do.
    /// A vector outside the trap table changes nothing and is reported.
    pub fn trap(&mut self, i: u16) -> (event: Event)
        ensures
            (final(self)@, event@) == old(self)@.trap(i),
            final(self)@.wf(),
    {
        match Trap::of(trp(i)) {
            Some(Trap::Getc) => Event::ReadChar,
            Some(Trap::Out) => {
                let mut text: Vec<u8> = Vec::new();
                text.push(self.tout());
                assert(text@ =~= seq![self@.tout()]);
                Event::Write(text)
            },
            Some(Trap::Puts) => Event::Write(self.tputs()),
            Some(Trap::In) => Event::ReadCharEcho,
            Some(Trap::Putsp) => {
                self.tputsp();
                Event::Continue
            },
            Some(Trap::Halt) => {
                self.thalt();
                Event::Continue
            },
            Some(Trap::Inu16) => Event::ReadLine,
            Some(Trap::Outu16) => Event::Write(self.toutu16()),
            None => Event::UnknownTrap(trp(i)),
        }
    }

    /// Executes the instruction `i` by the operation that its code selects.
    pub fn execute(&mut self, i: u16) -> (event: Event)
        ensures
            (final(self)@, event@) == old(self)@.execute(i),
            final(self)@.wf(),
    {
        match Opcode::of(i) {
            Opcode::Br => {
                self.br(i);
                Event::Continue
            },
            Opcode::Add => {
                self.add(i);
                Event::Continue
            },
            Opcode::Ld => {
                self.ld(i);
                Event::Continue
            },
            Opcode::St => {
                self.st(i);
                Event::Continue
            },
            Opcode::Jsr => {
                self.jsr(i);
                Event::Continue
            },
            Opcode::And => {
                self.and(i);
                Event::Continue
            },
            Opcode::Ldr => {
                self.ldr(i);
                Event::Continue
            },
            Opcode::Str => {
                self.str(i);
                Event::Continue
            },
            Opcode::Rti => {
                self.rti(i);
                Event::Continue
            },
            Opcode::Not => {
                self.not(i);
                Event::Continue
            },
            Opcode::Ldi => {
                self.ldi(i);
                Event::Continue
            },
            Opcode::Sti => {
                self.sti(i);
                Event::Continue
            },
            Opcode::Jmp => {
                self.jmp(i);
                Event::Continue
            },
            Opcode::Res => {
                self.res(i);
                Event::Continue
            },
            Opcode::Lea => {
                self.lea(i);
                Event::Continue
            },
            Opcode::Trap => self.trap(i),
        }
    }

    /// One step: fetches the word at the program counter, moves the program
    /// counter to the next word, then executes the word fetched.
    pub fn step(&mut self) -> (event: Event)
        ensures
            (final(self)@, event@) == old(self)@.step(),
            final(self)@.wf(),
    {
        let at: u16 = self.register(Register::RPC);
        let i: u16 = self.memread(at);
        self.set_register(Register::RPC, at.wrapping_add(1));
        assert(self@ == old(self)@.advance());
        self.execute(i)
    }

    /// The execution loop: takes steps while the machine runs, until a step
    /// asks something of the console or `budget` steps were taken. The
    /// result is what the last step asked; it is `Continue` where the
    /// machine halted or the budget ran out.
    pub fn run(&mut self, budget: u64) -> (event: Event)
        ensures
            (final(self)@, event@) == old(self)@.run(budget as nat),
            final(self)@.wf(),
    {
        let mut left: u64 = budget;
        while self.running && left > 0
            invariant
                self@.run(left as nat) == old(self)@.run(budget as nat),
            decreases left,
        {
            let event = self.step();
            left -= 1;
            match event {
                Event::Continue => {},
                _ => {
                    return event;
                },
            }
        }
        Event::Continue
    }

    /// Puts the program counter at `offset` from the origin, wrapping at
    /// the end of memory, and enters the execution loop.
    pub fn start(&mut self, offset: u16, budget: u64) -> (event: Event)
        ensures
            (final(self)@, event@) == old(self)@.start(offset).run(budget as nat),
            final(self)@.wf(),
    {
        let target: u16 = self.pc.wrapping_add(offset);
        assert(target == wrap(self@.origin + offset));
        self.set_register(Register::RPC, target);
        assert(self@ == old(self)@.start(offset));
        self.run(budget)
    }

    /// The register `r`.
    pub fn register(&self, r: Register) -> (value: u16)
        ensures
            value == self@.reg(r.index()),
    {
        self.registers[r.index() as usize]
    }

    /// Puts `value` in the register `r`.
    pub fn set_register(&mut self, r: Register, value: u16)
        ensures
            final(self)@ == old(self)@.set_reg(r.index(), value),
            final(self)@.wf(),
    {
        self.registers[r.index() as usize] = value;
    }

    /// Whether the machine has not been halted.
    pub fn is_running(&self) -> (running: bool)
        ensures
            running == self@.running,
    {
        self.running
    }

    /// The address at which programs are loaded and started.
    pub fn origin(&self) -> (origin: u16)
        ensures
            origin == self@.origin,
    {
        self.pc
    }

    /// Every machine covers all of memory and all registers.
    pub proof fn lemma_wf(&self)
        ensures
            self@.wf(),
    {
    }

    /// The word of memory at `address`.
    pub fn memread(&self, address: u16) -> (value: u16)
        ensures
            value == self@.mem(address),
    {
        self.memory[address as usize]
    }

    /// Puts `value` in memory at `address`.
    pub fn memwrite(&mut self, address: u16, value: u16)
        ensures
            final(self)@ == old(self)@.set_mem(address, value),
            final(self)@.wf(),
    {
        self.memory[address as usize] = value;
    }

    /// Sets the flags register to the one flag that classifies the register
    /// in slot `register`.
    pub fn uf(&mut self, register: u16)
        requires
            register < REGISTER_COUNT,
        ensures
            final(self)@ == old(self)@.uf(register),
            final(self)@.wf(),
    {
        let val: u16 = self.registers[register as usize];
        let flag = Flag::of(val);
        self.registers[Register::RCND.index() as usize] = flag.bits();
    }
}

} // verus!
